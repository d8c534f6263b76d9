//! Error values of the decoder and of the execution engine.
//!
//! Every failure is terminal for the call that reports it: a decode never
//! hands back a partial descriptor, and an instruction that fails leaves the
//! frame as it found it.

use vstd::prelude::*;

verus! {

/// Why a class file could not be decoded.
#[derive(Clone, Copy, Debug, PartialEq, Eq, Structural)]
pub enum DecodeError {
    /// The first four bytes are not `0xCAFEBABE`.
    MalformedHeader,
    /// A read needed more bytes than the buffer still holds.
    TruncatedInput,
    /// A constant record starts with a tag this format does not define.
    UnknownConstantTag(u8),
    /// A UTF8 constant is not valid modified UTF-8.
    MalformedStringEncoding,
    /// An attribute's name index does not select a UTF8 constant.
    InvalidNameIndex(u16),
    /// An attribute's fields end before its declared length does.
    AttributeLengthMismatch,
}

/// Why an instruction could not be fetched or executed.
#[derive(Clone, Copy, Debug, PartialEq, Eq, Structural)]
pub enum RuntimeError {
    /// The bytecode ends inside an instruction.
    TruncatedCode,
    /// The opcode byte selects no instruction.
    UnknownOpcode(u8),
    /// A push would exceed the capacity of an operand stack or call stack.
    StackOverflow,
    /// A pop found fewer slots on the operand stack than it needs.
    StackUnderflow,
    /// A local-variable index lies outside the frame's slot array.
    LocalIndexOutOfRange,
    /// A slot holds a reference where a number was asked for, or the reverse.
    SlotKindMismatch,
}

} // verus!
