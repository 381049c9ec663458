//! The instruction batch and its introspector.
//!
//! A batch is the ordered list of instructions of one atomic transaction;
//! the introspector hands out the entry at a given index and fails when the
//! index lies beyond the batch.

use vstd::prelude::*;

use crate::errors::VerifyError;

verus! {

/// One instruction of the batch: the identity of the program that issued
/// it and its opaque data bytes.
pub struct RawInstruction {
    /// 32-byte identifier of the declaring program.
    pub program_id: [u8; 32],
    /// The instruction's data buffer.
    pub data: Vec<u8>,
}

/// An ordered, read-only batch of instructions.
pub struct InstructionBatch {
    /// The instructions, in execution order.
    pub instructions: Vec<RawInstruction>,
}

impl InstructionBatch {
    /// Number of instructions in the batch.
    pub fn len(&self) -> (r: usize)
        ensures
            r == self.instructions@.len(),
    {
        self.instructions.len()
    }

    /// Returns the instruction at `index`, or
    /// `InstructionIndexOutOfRange` when `index` lies beyond the batch.
    pub fn get(&self, index: usize) -> (r: Result<&RawInstruction, VerifyError>)
        ensures
            index < self.instructions@.len() <==> r is Ok,
            r matches Ok(ix) ==> *ix == self.instructions@[index as int],
            r matches Err(e) ==> e == VerifyError::InstructionIndexOutOfRange,
    {
        if index < self.instructions.len() {
            Ok(&self.instructions[index])
        } else {
            Err(VerifyError::InstructionIndexOutOfRange)
        }
    }
}

} // verus!
