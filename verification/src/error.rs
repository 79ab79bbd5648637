//! The error taxonomy of the decoder and the interpreter.

use vstd::prelude::*;

verus! {

/// Which half of the 8-byte module header failed to match.
#[derive(Clone, Copy, Debug, PartialEq, Eq, Structural)]
pub enum HeaderField {
    /// The four magic bytes at offset 0.
    Magic,
    /// The four version bytes at offset 4.
    Version,
}

/// Everything that can go wrong while decoding a module or evaluating a
/// function body.  Every variant is fatal: the decode, or the evaluation in
/// progress, stops where the error arose.
#[derive(Clone, Copy, Debug, PartialEq, Eq, Structural)]
pub enum DecodeError {
    /// The magic or version bytes at the start of the module do not match.
    HeaderError { field: HeaderField },
    /// A read would pass the end of the module.
    OutOfBounds,
    /// A varint encodes a value wider than 32 bits.
    InvalidVarint,
    /// The section id found is not the one this decode stage expects.
    UnexpectedSection { found: u8, expected: u8 },
    /// A function declaration names a type index at or beyond the number of
    /// decoded signatures.
    InvalidTypeIndex,
    /// An export names a function index at or beyond the number of declared
    /// functions.
    InvalidExportIndex,
    /// The module ends without the Code section that execution needs.
    MissingCodeSection,
    /// An instruction popped from an empty operand stack.
    StackUnderflow,
    /// An opcode outside the supported subset.
    UnknownOpcode { byte: u8 },
    /// The instruction stream ran out before an end opcode.
    PrematureEnd,
}

} // verus!
