//! The meaning of an instruction stream: a stack machine over signed 32-bit
//! values, with a closed opcode subset.  Every `end` opcode ends the whole
//! function and yields the single value that must then lie on the stack.

use vstd::prelude::*;

use crate::error::DecodeError;
use crate::varint::spec_varint;

verus! {

/// No operation.
pub const OPCODE_NOP: u8 = 0x01;

/// End of the function body: pop the result and terminate.
pub const OPCODE_END: u8 = 0x0b;

/// Push a constant, read as one trailing varint.
pub const OPCODE_I32_CONST: u8 = 0x41;

/// Pop two values and push their wrapping sum.
pub const OPCODE_I32_ADD: u8 = 0x6a;

/// The i32 whose two's-complement bits are those of `v`.
pub open spec fn i32_of_u32(v: u32) -> i32 {
    if v < 0x8000_0000 {
        v as i32
    } else {
        (v - 0x1_0000_0000) as i32
    }
}

/// Reinterpret a decoded varint's bits as a signed constant.
pub fn u32_to_i32(v: u32) -> (r: i32)
    ensures
        r == i32_of_u32(v),
{
    if v < 0x8000_0000 {
        v as i32
    } else {
        ((v as i64) - 0x1_0000_0000) as i32
    }
}

/// What evaluating the instruction stream at `pos` with operand stack
/// `stack` yields: the result value and the position just past the end
/// opcode that produced it, or the fault that stops evaluation.  Faults:
/// running off the buffer before an end opcode, popping an empty stack, and
/// any opcode outside the subset.
pub open spec fn spec_exec(b: Seq<u8>, pos: int, stack: Seq<i32>) -> Result<
    (i32, int),
    DecodeError,
>
    decreases b.len() - pos,
{
    if pos < 0 || pos >= b.len() {
        Err(DecodeError::PrematureEnd)
    } else {
        let op = b[pos];
        if op == OPCODE_NOP {
            spec_exec(b, pos + 1, stack)
        } else if op == OPCODE_END {
            if stack.len() == 0 {
                Err(DecodeError::StackUnderflow)
            } else {
                Ok((stack.last(), pos + 1))
            }
        } else if op == OPCODE_I32_CONST {
            match spec_varint(b, pos + 1) {
                Ok(r) => spec_exec(b, r.1, stack.push(i32_of_u32(r.0 as u32))),
                Err(e) => Err(e),
            }
        } else if op == OPCODE_I32_ADD {
            if stack.len() < 2 {
                Err(DecodeError::StackUnderflow)
            } else {
                spec_exec(
                    b,
                    pos + 1,
                    stack.take(stack.len() - 2).push(
                        vstd::wrapping::i32_specs::wrapping_add(
                            stack[stack.len() - 2],
                            stack[stack.len() - 1],
                        ),
                    ),
                )
            }
        } else {
            Err(DecodeError::UnknownOpcode { byte: op })
        }
    }
}

} // verus!
