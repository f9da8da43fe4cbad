use vstd::prelude::*;

verus! {

/// `256^n`.
pub open spec fn pow256(n: nat) -> nat
    decreases n,
{
    if n == 0 {
        1
    } else {
        256 * pow256((n - 1) as nat)
    }
}

/// The number that a byte string denotes, most significant byte first.
pub open spec fn be_value(s: Seq<u8>) -> nat
    decreases s.len(),
{
    if s.len() == 0 {
        0
    } else {
        be_value(s.drop_last()) * 256 + s.last() as nat
    }
}

pub open spec fn two_pow_128() -> nat {
    18446744073709551616 * 18446744073709551616
}

/// Big-endian bytes of a 128-bit half.
pub open spec fn u128_bytes(v: u128) -> Seq<u8> {
    Seq::new(16, |i: int| ((v >> (8 * (15 - i)) as u128) & 0xff) as u8)
}

pub proof fn lemma_be_value_bound(s: Seq<u8>)
    ensures
        be_value(s) < pow256(s.len()),
    decreases s.len(),
{
    if s.len() > 0 {
        lemma_be_value_bound(s.drop_last());
        let a = be_value(s.drop_last());
        let p = pow256((s.len() - 1) as nat);
        let b = s.last() as nat;
        assert(a * 256 + b < 256 * p) by (nonlinear_arith)
            requires
                a < p,
                b < 256,
        ;
    }
}

pub proof fn lemma_be_value_append(a: Seq<u8>, b: Seq<u8>)
    ensures
        be_value(a + b) == be_value(a) * pow256(b.len()) + be_value(b),
    decreases b.len(),
{
    if b.len() == 0 {
        assert(a + b =~= a);
        assert(pow256(0) == 1);
        assert(be_value(a) * pow256(0) == be_value(a));
    } else {
        let bl = b.drop_last();
        assert((a + b).drop_last() =~= a + bl);
        lemma_be_value_append(a, bl);
        let va = be_value(a);
        let p = pow256(bl.len());
        let vb = be_value(bl);
        let l = b.last() as nat;
        assert((a + b).last() == b.last());
        assert(pow256(b.len()) == 256 * p);
        assert(b.drop_last() == bl);
        assert(be_value(a + b) == be_value(a + bl) * 256 + l);
        assert(be_value(b) == vb * 256 + l);
        assert((va * p + vb) * 256 + l == va * (256 * p) + (vb * 256 + l)) by (nonlinear_arith);
        assert(be_value(a) * pow256(b.len()) == va * (256 * p));
    }
}

proof fn lemma_pow256_16()
    ensures
        pow256(16) == two_pow_128(),
{
    reveal_with_fuel(pow256, 17);
}

proof fn lemma_view_parts(x: U256)
    ensures
        x.hi == 0 ==> x@ == x.lo as nat,
        x.hi > 0 ==> x@ >= two_pow_128(),
        two_pow_128() > u128::MAX,
{
    let h = x.hi as nat;
    let t = two_pow_128();
    assert(h > 0 ==> h * t >= t) by (nonlinear_arith);
}

proof fn lemma_shift_step(h: u128, s: u128)
    requires
        s <= 112,
    ensures
        (h >> (s + 8)) * 256 + ((h >> s) & 0xff) == h >> s,
        h >> (s + 8) <= 0xff_ffff_ffff_ffff_ffff_ffff_ffff_ffff,
{
    assert((h >> (s + 8)) * 256 + ((h >> s) & 0xff) == h >> s) by (bit_vector)
        requires
            s <= 112,
    ;
    assert(h >> (s + 8) <= 0xff_ffff_ffff_ffff_ffff_ffff_ffff_ffff) by (bit_vector)
        requires
            s <= 112,
    ;
}

proof fn lemma_u128_prefix(h: u128, k: nat)
    requires
        1 <= k <= 16,
    ensures
        be_value(u128_bytes(h).subrange(0, k as int)) == (h >> (8 * (16 - k)) as u128) as nat,
    decreases k,
{
    let p = u128_bytes(h).subrange(0, k as int);
    let s: u128 = (8 * (16 - k)) as u128;
    assert((8 * (15 - (k - 1))) as u128 == s);
    let y = (h >> s) & 0xff;
    assert(y <= 0xff) by (bit_vector)
        requires
            y == (h >> s) & 0xff,
    ;
    assert(p.last() == y as u8);
    assert(p.last() as nat == y as nat);
    assert(be_value(p) == be_value(p.drop_last()) * 256 + p.last() as nat);
    if k == 1 {
        assert(p.drop_last().len() == 0);
        assert(s == 120);
        assert((h >> 120u128) & 0xff == h >> 120u128) by (bit_vector);
    } else {
        lemma_u128_prefix(h, (k - 1) as nat);
        assert(p.drop_last() =~= u128_bytes(h).subrange(0, k - 1));
        lemma_shift_step(h, s);
        assert((8 * (16 - (k - 1))) as u128 == s + 8);
        let x = h >> (s + 8);
        assert(be_value(p.drop_last()) == x as nat);
        assert(x as nat * 256 + y as nat == (h >> s) as nat);
    }
}

proof fn lemma_u128_bytes_value(h: u128)
    ensures
        be_value(u128_bytes(h)) == h as nat,
{
    lemma_u128_prefix(h, 16);
    assert(u128_bytes(h).subrange(0, 16) =~= u128_bytes(h));
    assert(h >> 0u128 == h) by (bit_vector);
}

/// A 256-bit unsigned word, held as two 128-bit halves.
#[derive(Clone, Copy, Debug, PartialEq, Eq, Structural)]
pub struct U256 {
    pub hi: u128,
    pub lo: u128,
}

impl View for U256 {
    type V = nat;

    open spec fn view(&self) -> nat {
        self.hi as nat * two_pow_128() + self.lo as nat
    }
}

impl U256 {
    /// The word whose big-endian bytes are `s` (of length 32).
    pub open spec fn from_bytes_spec(s: Seq<u8>) -> U256 {
        U256 {
            hi: be_value(s.subrange(0, 16)) as u128,
            lo: be_value(s.subrange(16, 32)) as u128,
        }
    }

    /// The 32 big-endian bytes of this word.
    pub open spec fn bytes_spec(self) -> Seq<u8> {
        u128_bytes(self.hi) + u128_bytes(self.lo)
    }

    /// The word holding a small number.
    pub open spec fn from_usize_spec(v: nat) -> U256 {
        U256 { hi: 0, lo: v as u128 }
    }

    /// Reading back the bytes of a word gives the word.
    pub proof fn lemma_bytes_round_trip(self)
        ensures
            self.bytes_spec().len() == 32,
            U256::from_bytes_spec(self.bytes_spec()) == self,
    {
        let b = self.bytes_spec();
        assert(b.subrange(0, 16) =~= u128_bytes(self.hi));
        assert(b.subrange(16, 32) =~= u128_bytes(self.lo));
        lemma_u128_bytes_value(self.hi);
        lemma_u128_bytes_value(self.lo);
    }

    pub fn zero() -> (r: U256)
        ensures
            r@ == 0,
            r.hi == 0 && r.lo == 0,
    {
        U256 { hi: 0, lo: 0 }
    }

    pub fn from_u64(v: u64) -> (r: U256)
        ensures
            r@ == v as nat,
            r == U256::from_usize_spec(v as nat),
    {
        U256 { hi: 0, lo: v as u128 }
    }

    pub fn from_usize(v: usize) -> (r: U256)
        ensures
            r@ == v as nat,
            r == U256::from_usize_spec(v as nat),
    {
        U256 { hi: 0, lo: v as u128 }
    }

    pub fn is_zero(&self) -> (r: bool)
        ensures
            r == (self@ == 0),
    {
        proof {
            lemma_view_parts(*self);
        }
        self.hi == 0 && self.lo == 0
    }

    /// The value as a `u64`, where it fits in 64 bits.
    pub fn to_u64(&self) -> (r: Option<u64>)
        ensures
            match r {
                Some(v) => self@ <= u64::MAX && v as nat == self@,
                None => self@ > u64::MAX,
            },
    {
        proof {
            lemma_view_parts(*self);
        }
        if self.hi == 0 && self.lo <= u64::MAX as u128 {
            Some(self.lo as u64)
        } else {
            None
        }
    }

    /// `min(self, bound)` as a `usize`.
    pub fn clamp_to(&self, bound: usize) -> (r: usize)
        ensures
            r as nat == if self@ < bound as nat { self@ } else { bound as nat },
    {
        proof {
            lemma_view_parts(*self);
        }
        if self.hi == 0 && self.lo < bound as u128 {
            self.lo as usize
        } else {
            bound
        }
    }

    /// The word denoted by 32 big-endian bytes.
    pub fn from_big_endian(b: &Vec<u8>) -> (r: U256)
        requires
            b@.len() == 32,
        ensures
            r == U256::from_bytes_spec(b@),
            r@ == be_value(b@),
    {
        let hi = fold_half(b, 0);
        let lo = fold_half(b, 16);
        proof {
            let s = b@;
            assert(s =~= s.subrange(0, 16) + s.subrange(16, 32));
            lemma_be_value_append(s.subrange(0, 16), s.subrange(16, 32));
            lemma_pow256_16();
        }
        U256 { hi, lo }
    }

    /// The 32 big-endian bytes of this word.
    pub fn to_big_endian(&self) -> (r: Vec<u8>)
        ensures
            r@ == self.bytes_spec(),
            r@.len() == 32,
    {
        let mut out: Vec<u8> = Vec::new();
        push_half(&mut out, self.hi);
        push_half(&mut out, self.lo);
        assert(out@ =~= self.bytes_spec());
        out
    }
}

fn fold_half(b: &Vec<u8>, start: usize) -> (r: u128)
    requires
        start <= 16,
        start + 16 <= b@.len(),
    ensures
        r as nat == be_value(b@.subrange(start as int, start + 16)),
{
    let mut acc: u128 = 0;
    let mut k: usize = 0;
    while k < 16
        invariant
            k <= 16,
            start <= 16,
            start + 16 <= b@.len(),
            acc as nat == be_value(b@.subrange(start as int, start + k)),
        decreases 16 - k,
    {
        let ghost prev = b@.subrange(start as int, start + k);
        let ghost next = b@.subrange(start as int, start + k + 1);
        proof {
            assert(next.drop_last() =~= prev);
            lemma_be_value_bound(next);
            lemma_pow_mono(next.len(), 16);
            lemma_pow256_16();
            assert(next.last() == b@[start + k]);
            assert(be_value(next) == acc * 256 + b@[start + k]);
            assert(be_value(next) < two_pow_128());
            assert(two_pow_128() == u128::MAX + 1);
        }
        acc = acc * 256 + b[start + k] as u128;
        k = k + 1;
    }
    acc
}

proof fn lemma_pow_mono(a: nat, b: nat)
    requires
        a <= b,
    ensures
        pow256(a) <= pow256(b),
    decreases b,
{
    if a < b {
        lemma_pow_mono(a, (b - 1) as nat);
    }
}

fn push_half(out: &mut Vec<u8>, v: u128)
    ensures
        final(out)@ == old(out)@ + u128_bytes(v),
{
    let ghost start = out@;
    let mut i: usize = 0;
    while i < 16
        invariant
            i <= 16,
            out@ =~= start + u128_bytes(v).subrange(0, i as int),
        decreases 16 - i,
    {
        let shift: u128 = (8 * (15 - i)) as u128;
        out.push(((v >> shift) & 0xff) as u8);
        i = i + 1;
        assert(out@ =~= start + u128_bytes(v).subrange(0, i as int));
    }
    assert(u128_bytes(v).subrange(0, 16) =~= u128_bytes(v));
}

} // verus!
