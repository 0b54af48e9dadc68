use vstd::prelude::*;

verus! {

/// Errors reported by the instruction and account-state codecs.
#[derive(Clone, Copy, Debug, PartialEq, Eq, Structural)]
pub enum StreamError {
    /// Instruction bytes are empty, carry an unknown tag, or end inside a
    /// fixed-width numeric or flag field.
    InvalidStreamInstruction,
    /// Instruction bytes end inside a 32-byte key or name field.
    InvalidArgument,
    /// A flag byte of a stored record is neither 0 nor 1.
    InvalidStreamData,
    /// The program id handed to an instruction builder is not this program's.
    IncorrectProgramId,
}

} // verus!
