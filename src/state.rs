use vstd::prelude::*;
use crate::memory::MAX_MEMORY_SIZE;
use crate::u256::U256;

verus! {

/// The state of one call frame of the interpreter.
pub struct ExecutionState {
    /// The operand stack; its top is the last element.
    pub stack: Vec<U256>,
    /// Linear memory.
    pub memory: Vec<u8>,
    /// The input of this call, fixed at entry.
    pub input_data: Vec<u8>,
    /// The output of the last completed sub-call.
    pub return_data: Vec<u8>,
    /// The method number this frame was invoked with.
    pub method: u64,
}

impl ExecutionState {
    pub open spec fn wf(&self) -> bool {
        self.memory@.len() <= MAX_MEMORY_SIZE
    }

    /// The stack element `n` places below the top.
    pub open spec fn peek(&self, n: int) -> U256 {
        self.stack@[self.stack@.len() - 1 - n]
    }

    /// The stack with its top `n` elements removed.
    pub open spec fn popped(&self, n: int) -> Seq<U256> {
        self.stack@.subrange(0, self.stack@.len() - n)
    }

    pub fn new(input_data: Vec<u8>, method: u64) -> (r: ExecutionState)
        ensures
            r.wf(),
            r.stack@.len() == 0,
            r.memory@.len() == 0,
            r.return_data@.len() == 0,
            r.input_data@ == input_data@,
            r.method == method,
    {
        ExecutionState { stack: Vec::new(), memory: Vec::new(), input_data, return_data: Vec::new(), method }
    }

    /// Removes and returns the top of the stack.
    pub fn pop(&mut self) -> (r: U256)
        requires
            old(self).stack@.len() > 0,
        ensures
            r == old(self).peek(0),
            final(self).stack@ == old(self).popped(1),
            final(self).memory == old(self).memory,
            final(self).input_data == old(self).input_data,
            final(self).return_data == old(self).return_data,
            final(self).method == old(self).method,
    {
        let r = self.stack.pop();
        r.unwrap()
    }
}

} // verus!
