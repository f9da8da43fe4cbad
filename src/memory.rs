use vstd::prelude::*;
use crate::u256::U256;

verus! {

/// The largest size that linear memory may grow to.
pub const MAX_MEMORY_SIZE: usize = 0x800_0000;

/// Errors that abort an instruction.
#[derive(Clone, Copy, Debug, PartialEq, Eq, Structural)]
pub enum StatusCode {
    InvalidMemoryAccess,
    StaticModeViolation,
    PrecompileFailure,
    BadAddress,
    ArgumentOutOfRange,
    InternalError,
    Unsupported,
}

/// A validated, non-empty slice of linear memory.
#[derive(Clone, Copy, Debug, PartialEq, Eq, Structural)]
pub struct MemoryRegion {
    pub offset: usize,
    pub size: usize,
}

impl MemoryRegion {
    pub open spec fn wf_in(self, mem: Seq<u8>) -> bool {
        &&& self.size > 0
        &&& self.offset + self.size <= mem.len()
    }
}

pub open spec fn min_nat(a: nat, b: nat) -> nat {
    if a < b {
        a
    } else {
        b
    }
}

/// `n` rounded up to a whole number of 32-byte words.
pub open spec fn round_up_words(n: nat) -> nat {
    ((n + 31) / 32) * 32
}

/// Whether an access of `size` bytes at `offset` is allowed.
pub open spec fn access_ok(offset: nat, size: nat) -> bool {
    size == 0 || offset + size <= MAX_MEMORY_SIZE
}

/// Memory after it has grown to hold `end` bytes: new bytes are zero.
pub open spec fn grown(mem: Seq<u8>, end: nat) -> Seq<u8> {
    if end <= mem.len() {
        mem
    } else {
        Seq::new(round_up_words(end), |i: int| if i < mem.len() { mem[i] } else { 0u8 })
    }
}

/// Memory after `size` bytes at `off` are filled from `src` starting at
/// `skip`, with zeros where `src` runs out.
pub open spec fn region_write(mem: Seq<u8>, off: nat, size: nat, src: Seq<u8>, skip: nat) -> Seq<u8> {
    Seq::new(
        mem.len(),
        |i: int|
            if off <= i < off + size {
                if skip + (i - off) < src.len() {
                    src[skip + (i - off)]
                } else {
                    0u8
                }
            } else {
                mem[i]
            },
    )
}

/// Memory after an access of `size` bytes at `offset` has been resolved.
pub open spec fn after_access(mem: Seq<u8>, offset: nat, size: nat) -> Seq<u8> {
    if size == 0 {
        mem
    } else {
        grown(mem, offset + size)
    }
}

/// Memory after the bytes of `src` from `skip` on are copied to the region
/// of `size` bytes at `offset`, zero-filling what `src` does not cover.
pub open spec fn copied(mem: Seq<u8>, offset: nat, size: nat, src: Seq<u8>, skip: nat) -> Seq<u8> {
    if size == 0 {
        mem
    } else {
        region_write(grown(mem, offset + size), offset, size, src, skip)
    }
}

/// Resolves `size` bytes at `offset` to a region of memory, growing memory
/// as needed; a zero size touches nothing.
pub fn get_memory_region(mem: &mut Vec<u8>, offset: U256, size: U256) -> (r: Result<
    Option<MemoryRegion>,
    StatusCode,
>)
    requires
        old(mem)@.len() <= MAX_MEMORY_SIZE,
    ensures
        size@ == 0 ==> r == Ok::<Option<MemoryRegion>, StatusCode>(None),
        r.is_err() <==> !access_ok(offset@, size@),
        r.is_err() ==> r == Err::<Option<MemoryRegion>, StatusCode>(StatusCode::InvalidMemoryAccess),
        r.is_err() ==> final(mem)@ == old(mem)@,
        r.is_ok() ==> final(mem)@ == after_access(old(mem)@, offset@, size@),
        final(mem)@.len() <= MAX_MEMORY_SIZE,
        match r {
            Ok(Some(region)) => {
                &&& size@ > 0
                &&& region.offset == offset@
                &&& region.size == size@
                &&& region.wf_in(final(mem)@)
            },
            Ok(None) => size@ == 0,
            _ => true,
        },
{
    if size.is_zero() {
        return Ok(None);
    }
    let o = offset.clamp_to(MAX_MEMORY_SIZE + 1);
    let z = size.clamp_to(MAX_MEMORY_SIZE + 1);
    if o + z > MAX_MEMORY_SIZE {
        return Err(StatusCode::InvalidMemoryAccess);
    }
    let end = o + z;
    if end > mem.len() {
        let new_len = (end + 31) / 32 * 32;
        assert(new_len <= MAX_MEMORY_SIZE) by (nonlinear_arith)
            requires
                end <= MAX_MEMORY_SIZE,
                MAX_MEMORY_SIZE == 0x800_0000,
                new_len == (end + 31) / 32 * 32,
        ;
        assert(new_len >= end) by (nonlinear_arith)
            requires
                new_len == (end + 31) / 32 * 32,
        ;
        let ghost start = mem@;
        while mem.len() < new_len
            invariant
                start.len() <= mem@.len() <= new_len,
                forall|i: int| 0 <= i < mem@.len() ==> mem@[i] == (if i < start.len() { start[i] } else { 0u8 }),
            decreases new_len - mem@.len(),
        {
            mem.push(0);
        }
        assert(mem@ =~= grown(start, end as nat));
    }
    Ok(Some(MemoryRegion { offset: o, size: z }))
}

/// Fills `region` from `src` starting at `skip`, zero-filling past the end of `src`.
pub fn write_region(mem: &mut Vec<u8>, region: MemoryRegion, src: &[u8], skip: usize)
    requires
        region.offset + region.size <= old(mem)@.len(),
        skip <= src@.len(),
    ensures
        final(mem)@ == region_write(old(mem)@, region.offset as nat, region.size as nat, src@, skip as nat),
{
    let ghost start = mem@;
    let n = src.len();
    let m = mem.len();
    let avail = n - skip;
    let mut i: usize = 0;
    while i < region.size
        invariant
            n == src@.len(),
            m == start.len(),
            i <= region.size,
            region.offset + region.size <= start.len(),
            skip <= src@.len(),
            avail == src@.len() - skip,
            mem@.len() == start.len(),
            forall|j: int|
                0 <= j < mem@.len() ==> mem@[j] == (if region.offset <= j < region.offset + i {
                    region_write(start, region.offset as nat, region.size as nat, src@, skip as nat)[j]
                } else {
                    start[j]
                }),
        decreases region.size - i,
    {
        let v: u8 = if i < avail {
            src[skip + i]
        } else {
            0
        };
        mem.set(region.offset + i, v);
        i = i + 1;
    }
    assert(mem@ =~= region_write(start, region.offset as nat, region.size as nat, src@, skip as nat));
}

/// Copies `data` from `data_offset` on into the `dest_size` bytes at
/// `dest_offset`, zero-filling what `data` does not cover.
pub fn copy_to_memory(
    mem: &mut Vec<u8>,
    dest_offset: U256,
    dest_size: U256,
    data_offset: U256,
    data: &[u8],
) -> (r: Result<(), StatusCode>)
    requires
        old(mem)@.len() <= MAX_MEMORY_SIZE,
    ensures
        r.is_err() <==> !access_ok(dest_offset@, dest_size@),
        r.is_err() ==> r == Err::<(), StatusCode>(StatusCode::InvalidMemoryAccess),
        r.is_err() ==> final(mem)@ == old(mem)@,
        r.is_ok() ==> final(mem)@ == copied(
            old(mem)@,
            dest_offset@,
            dest_size@,
            data@,
            min_nat(data_offset@, data@.len()),
        ),
        final(mem)@.len() <= MAX_MEMORY_SIZE,
{
    match get_memory_region(mem, dest_offset, dest_size) {
        Err(e) => Err(e),
        Ok(None) => Ok(()),
        Ok(Some(region)) => {
            let skip = data_offset.clamp_to(data.len());
            write_region(mem, region, data, skip);
            Ok(())
        },
    }
}

/// A copy into a valid region of more bytes than the source still holds
/// (past `skip`) places those bytes first and zero-fills the rest of the region.
pub proof fn lemma_copy_zero_fills(mem: Seq<u8>, offset: nat, size: nat, src: Seq<u8>, skip: nat)
    requires
        size > 0,
        access_ok(offset, size),
        skip <= src.len(),
    ensures
        forall|i: int|
            offset <= i < offset + size ==> copied(mem, offset, size, src, skip)[i] == (if i
                - offset < src.len() - skip {
                src[skip + (i - offset)]
            } else {
                0u8
            }),
        copied(mem, offset, size, src, skip).len() >= offset + size,
        forall|i: int|
            0 <= i < mem.len() && !(offset <= i < offset + size) ==> copied(
                mem,
                offset,
                size,
                src,
                skip,
            )[i] == mem[i],
{
    let g = grown(mem, offset + size);
    if offset + size > mem.len() {
        assert(round_up_words(offset + size) >= offset + size) by (nonlinear_arith);
    }
    assert(g.len() >= offset + size);
}

} // verus!
