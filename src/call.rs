use vstd::prelude::*;
use crate::memory::{
    access_ok, copied, copy_to_memory, get_memory_region, min_nat, MemoryRegion, StatusCode,
};
use crate::state::ExecutionState;
use crate::u256::U256;

verus! {

/// The kind of call-like instruction.
#[derive(Clone, Copy, Debug, PartialEq, Eq, Structural)]
pub enum CallKind {
    Call,
    DelegateCall,
    StaticCall,
    CallCode,
}

/// The 32 bytes of input read at `index`, zero past the end of the input.
pub open spec fn calldata_word(input: Seq<u8>, index: nat) -> Seq<u8> {
    Seq::new(32, |i: int| if index + i < input.len() { input[index + i] } else { 0u8 })
}

/// CALLDATALOAD: replaces the index on top of the stack with the input word there.
pub fn calldataload(state: &mut ExecutionState)
    requires
        old(state).stack@.len() >= 1,
    ensures
        final(state).stack@ == old(state).popped(1).push(
            U256::from_bytes_spec(calldata_word(old(state).input_data@, old(state).peek(0)@)),
        ),
        final(state).memory == old(state).memory,
        final(state).input_data == old(state).input_data,
        final(state).return_data == old(state).return_data,
        final(state).method == old(state).method,
{
    let index = state.pop();
    let input_len = state.input_data.len();
    let start = index.clamp_to(input_len);
    let avail = input_len - start;
    let mut word: Vec<u8> = Vec::new();
    let mut i: usize = 0;
    while i < 32
        invariant
            i <= 32,
            start <= input_len,
            input_len == state.input_data@.len(),
            avail == input_len - start,
            start as nat == min_nat(index@, input_len as nat),
            word@ =~= calldata_word(state.input_data@, index@).subrange(0, i as int),
        decreases 32 - i,
    {
        let b: u8 = if i < avail {
            state.input_data[start + i]
        } else {
            0
        };
        word.push(b);
        i = i + 1;
    }
    assert(word@ =~= calldata_word(state.input_data@, index@));
    let v = U256::from_big_endian(&word);
    state.stack.push(v);
}

/// CALLDATASIZE: pushes the length of the input.
pub fn calldatasize(state: &mut ExecutionState)
    ensures
        final(state).stack@ == old(state).stack@.push(U256::from_usize_spec(old(state).input_data@.len())),
        final(state).memory == old(state).memory,
        final(state).input_data == old(state).input_data,
        final(state).return_data == old(state).return_data,
        final(state).method == old(state).method,
{
    let v = U256::from_usize(state.input_data.len());
    state.stack.push(v);
}

/// CALLDATACOPY: copies input into memory, zero-filling past its end.
pub fn calldatacopy(state: &mut ExecutionState) -> (r: Result<(), StatusCode>)
    requires
        old(state).wf(),
        old(state).stack@.len() >= 3,
    ensures
        final(state).wf(),
        final(state).stack@ == old(state).popped(3),
        r.is_err() <==> !access_ok(old(state).peek(0)@, old(state).peek(2)@),
        r.is_err() ==> r == Err::<(), StatusCode>(StatusCode::InvalidMemoryAccess)
            && final(state).memory@ == old(state).memory@,
        r.is_ok() ==> final(state).memory@ == copied(
            old(state).memory@,
            old(state).peek(0)@,
            old(state).peek(2)@,
            old(state).input_data@,
            min_nat(old(state).peek(1)@, old(state).input_data@.len()),
        ),
        final(state).input_data == old(state).input_data,
        final(state).return_data == old(state).return_data,
        final(state).method == old(state).method,
{
    let mem_index = state.pop();
    let input_index = state.pop();
    let size = state.pop();
    copy_to_memory(&mut state.memory, mem_index, size, input_index, state.input_data.as_slice())
}

/// CODESIZE: pushes the length of `code`.
pub fn codesize(stack: &mut Vec<U256>, code: &[u8])
    ensures
        final(stack)@ == old(stack)@.push(U256::from_usize_spec(code@.len())),
{
    stack.push(U256::from_usize(code.len()))
}

/// CODECOPY: copies `code` into memory, zero-filling past its end.
pub fn codecopy(state: &mut ExecutionState, code: &[u8]) -> (r: Result<(), StatusCode>)
    requires
        old(state).wf(),
        old(state).stack@.len() >= 3,
    ensures
        final(state).wf(),
        final(state).stack@ == old(state).popped(3),
        r.is_err() <==> !access_ok(old(state).peek(0)@, old(state).peek(2)@),
        r.is_err() ==> r == Err::<(), StatusCode>(StatusCode::InvalidMemoryAccess)
            && final(state).memory@ == old(state).memory@,
        r.is_ok() ==> final(state).memory@ == copied(
            old(state).memory@,
            old(state).peek(0)@,
            old(state).peek(2)@,
            code@,
            min_nat(old(state).peek(1)@, code@.len()),
        ),
        final(state).input_data == old(state).input_data,
        final(state).return_data == old(state).return_data,
        final(state).method == old(state).method,
{
    let mem_index = state.pop();
    let code_index = state.pop();
    let size = state.pop();
    copy_to_memory(&mut state.memory, mem_index, size, code_index, code)
}

/// METHODNUM: pushes the method number of this frame.
pub fn methodnum(state: &mut ExecutionState)
    ensures
        final(state).stack@ == old(state).stack@.push(U256::from_usize_spec(old(state).method as nat)),
        final(state).memory == old(state).memory,
        final(state).input_data == old(state).input_data,
        final(state).return_data == old(state).return_data,
        final(state).method == old(state).method,
{
    let v = U256::from_u64(state.method);
    state.stack.push(v);
}

/// A load at or past the end of the input reads zero; a load that starts
/// `k` bytes before the end reads those `k` bytes first, then zeros.
pub proof fn lemma_calldata_word_tail(input: Seq<u8>, index: nat)
    ensures
        index >= input.len() ==> calldata_word(input, index) == Seq::new(32, |i: int| 0u8),
        index < input.len() && input.len() - index < 32 ==> calldata_word(input, index)
            == input.subrange(index as int, input.len() as int) + Seq::new(
            (32 - (input.len() - index)) as nat,
            |i: int| 0u8,
        ),
{
    if index >= input.len() {
        assert(calldata_word(input, index) =~= Seq::new(32, |i: int| 0u8));
    }
    if index < input.len() && input.len() - index < 32 {
        assert(calldata_word(input, index) =~= input.subrange(index as int, input.len() as int)
            + Seq::new((32 - (input.len() - index)) as nat, |i: int| 0u8));
    }
}

} // verus!
