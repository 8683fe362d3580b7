//! The ways in which encoding or decoding can fail.

use vstd::prelude::*;

verus! {

/// Why an operand was refused by an encoder, or a word by the decoder.
#[derive(Debug, Clone, Copy, PartialEq, Eq, Structural)]
pub enum IsaError {
    /// A register index is 32 or more.
    BadReg,
    /// An immediate does not fit its field, or is odd where the field
    /// stores no lowest bit.
    ImmOutOfRange,
    /// The opcode bits select no known instruction family.
    BadOpcode,
    /// The opcode is known, the function bits under it are not.
    BadFunct,
}

} // verus!
