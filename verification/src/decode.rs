//! The module decoder: one cursor walks the byte buffer through the header
//! and the Type, Function, Export and Code sections in that order, and the
//! Code section hands exactly one function body to the interpreter.
//!
//! Each decode stage has a spec-level counterpart (`spec_header`,
//! `spec_type_section`, ..., `spec_run`) that maps the buffer and a position
//! to the stage's outcome; the executable methods return exactly what those
//! functions denote.

use vstd::prelude::*;

use crate::error::DecodeError;
use crate::error::HeaderField;
use crate::interp::i32_of_u32;
use crate::interp::spec_exec;
use crate::interp::u32_to_i32;
use crate::interp::OPCODE_END;
use crate::interp::OPCODE_I32_ADD;
use crate::interp::OPCODE_I32_CONST;
use crate::interp::OPCODE_NOP;
use crate::varint::spec_varint;
use crate::varint::varint_good_len;
use crate::varint::varint_val;

verus! {

/// Section id of the Type section.
pub const TYPE_SECTION_ID: u8 = 1;

/// Section id of the Function section.
pub const FUNCTION_SECTION_ID: u8 = 3;

/// Section id of the Export section.
pub const EXPORT_SECTION_ID: u8 = 7;

/// Section id of the Code section.
pub const CODE_SECTION_ID: u8 = 10;

/// A binary module: the immutable byte buffer.  All decode state lives in
/// the cursor values the methods thread through.
pub struct Module {
    binary: Vec<u8>,
}

impl View for Module {
    type V = Seq<u8>;

    closed spec fn view(&self) -> Seq<u8> {
        self.binary@
    }
}

/// The header at `pos`: four magic bytes 0x00 0x61 0x73 0x6d, then four
/// version bytes 0x01 0x00 0x00 0x00.  On a match the position moves past
/// all eight; a mismatch names the half that failed.
pub open spec fn spec_header(b: Seq<u8>, pos: int) -> Result<int, DecodeError> {
    if pos + 8 > b.len() {
        Err(DecodeError::OutOfBounds)
    } else if !(b[pos] == 0x00 && b[pos + 1] == 0x61 && b[pos + 2] == 0x73 && b[pos + 3] == 0x6d) {
        Err(DecodeError::HeaderError { field: HeaderField::Magic })
    } else if !(b[pos + 4] == 0x01 && b[pos + 5] == 0x00 && b[pos + 6] == 0x00 && b[pos + 7]
        == 0x00) {
        Err(DecodeError::HeaderError { field: HeaderField::Version })
    } else {
        Ok(pos + 8)
    }
}

/// Advancing a position by `n` bytes, bounds-checked against the buffer
/// length.
pub open spec fn spec_skip(len: int, pos: int, n: int) -> Result<int, DecodeError> {
    if pos + n <= len {
        Ok(pos + n)
    } else {
        Err(DecodeError::OutOfBounds)
    }
}

/// A section frame at `pos`: the one-byte id, which must equal
/// `expected_id`, then the varint section size.  Yields the size and the
/// position of the section payload.
pub open spec fn spec_section_header(b: Seq<u8>, pos: int, expected_id: u8) -> Result<
    (int, int),
    DecodeError,
> {
    if pos < 0 || pos >= b.len() {
        Err(DecodeError::OutOfBounds)
    } else if b[pos] != expected_id {
        Err(DecodeError::UnexpectedSection { found: b[pos], expected: expected_id })
    } else {
        spec_varint(b, pos + 1)
    }
}

/// One function signature after the form tag: a parameter count, that many
/// one-byte type codes, a result count, that many one-byte type codes.  The
/// codes are consumed, not interpreted.
pub open spec fn spec_sig(b: Seq<u8>, pos: int) -> Result<int, DecodeError> {
    match spec_varint(b, pos) {
        Ok(params) => match spec_skip(b.len() as int, params.1, params.0) {
            Ok(p2) => match spec_varint(b, p2) {
                Ok(results) => spec_skip(b.len() as int, results.1, results.0),
                Err(e) => Err(e),
            },
            Err(e) => Err(e),
        },
        Err(e) => Err(e),
    }
}

/// `n` entries of the Type section: each a varint form tag (any value is
/// tolerated; only the function form 0x60 is meaningful) and a signature.
pub open spec fn spec_sigs(b: Seq<u8>, pos: int, n: nat) -> Result<int, DecodeError>
    decreases n,
{
    if n == 0 {
        Ok(pos)
    } else {
        match spec_varint(b, pos) {
            Ok(form) => match spec_sig(b, form.1) {
                Ok(p2) => spec_sigs(b, p2, (n - 1) as nat),
                Err(e) => Err(e),
            },
            Err(e) => Err(e),
        }
    }
}

/// The Type section at `pos`: its frame, the signature count, and that many
/// signatures.  Yields the count, which later sections validate indices
/// against, and the position past the section.
pub open spec fn spec_type_section(b: Seq<u8>, pos: int) -> Result<(int, int), DecodeError> {
    match spec_section_header(b, pos, TYPE_SECTION_ID) {
        Ok(frame) => match spec_varint(b, frame.1) {
            Ok(count) => match spec_sigs(b, count.1, count.0 as nat) {
                Ok(p3) => Ok((count.0, p3)),
                Err(e) => Err(e),
            },
            Err(e) => Err(e),
        },
        Err(e) => Err(e),
    }
}

/// `k` declarations of the Function section: each a varint type index that
/// must lie below `num_types`.
pub open spec fn spec_decls(b: Seq<u8>, pos: int, k: nat, num_types: int) -> Result<
    int,
    DecodeError,
>
    decreases k,
{
    if k == 0 {
        Ok(pos)
    } else {
        match spec_varint(b, pos) {
            Ok(ti) => if ti.0 < num_types {
                spec_decls(b, ti.1, (k - 1) as nat, num_types)
            } else {
                Err(DecodeError::InvalidTypeIndex)
            },
            Err(e) => Err(e),
        }
    }
}

/// The Function section at `pos`: its frame, the declaration count, and that
/// many type indices, each validated against `num_types`.  Yields the
/// declaration count and the position past the section.
pub open spec fn spec_func_section(b: Seq<u8>, pos: int, num_types: int) -> Result<
    (int, int),
    DecodeError,
> {
    match spec_section_header(b, pos, FUNCTION_SECTION_ID) {
        Ok(frame) => match spec_varint(b, frame.1) {
            Ok(count) => match spec_decls(b, count.1, count.0 as nat, num_types) {
                Ok(p3) => Ok((count.0, p3)),
                Err(e) => Err(e),
            },
            Err(e) => Err(e),
        },
        Err(e) => Err(e),
    }
}

/// `k` entries of the Export section: a varint name length, that many name
/// bytes (skipped, not retained), a varint export kind (any value is
/// tolerated; 0 means function), and a varint function index that must lie
/// below `num_decls`.
pub open spec fn spec_exports(b: Seq<u8>, pos: int, k: nat, num_decls: int) -> Result<
    int,
    DecodeError,
>
    decreases k,
{
    if k == 0 {
        Ok(pos)
    } else {
        match spec_varint(b, pos) {
            Ok(name_len) => match spec_skip(b.len() as int, name_len.1, name_len.0) {
                Ok(p2) => match spec_varint(b, p2) {
                    Ok(kind) => match spec_varint(b, kind.1) {
                        Ok(fi) => if fi.0 < num_decls {
                            spec_exports(b, fi.1, (k - 1) as nat, num_decls)
                        } else {
                            Err(DecodeError::InvalidExportIndex)
                        },
                        Err(e) => Err(e),
                    },
                    Err(e) => Err(e),
                },
                Err(e) => Err(e),
            },
            Err(e) => Err(e),
        }
    }
}

/// The Export section at `pos`: its frame, the export count, and that many
/// exports, each function index validated against `num_decls`.  Yields the
/// position past the section.
pub open spec fn spec_export_section(b: Seq<u8>, pos: int, num_decls: int) -> Result<
    int,
    DecodeError,
> {
    match spec_section_header(b, pos, EXPORT_SECTION_ID) {
        Ok(frame) => match spec_varint(b, frame.1) {
            Ok(count) => spec_exports(b, count.1, count.0 as nat, num_decls),
            Err(e) => Err(e),
        },
        Err(e) => Err(e),
    }
}

/// `k` local-variable group declarations at the head of a function body:
/// each a varint count and one type-code byte, neither of which this opcode
/// subset ever reads back.
pub open spec fn spec_locals(b: Seq<u8>, pos: int, k: nat) -> Result<int, DecodeError>
    decreases k,
{
    if k == 0 {
        Ok(pos)
    } else {
        match spec_varint(b, pos) {
            Ok(count) => match spec_skip(b.len() as int, count.1, 1) {
                Ok(p2) => spec_locals(b, p2, (k - 1) as nat),
                Err(e) => Err(e),
            },
            Err(e) => Err(e),
        }
    }
}

/// One function body at `pos`: its varint byte length, then either a skip of
/// exactly that many bytes (yielding no result), or — when this body is the
/// interpretation target — the local groups and the instruction stream,
/// evaluated on an empty operand stack.
pub open spec fn spec_body(b: Seq<u8>, pos: int, interpret: bool) -> Result<
    (Option<i32>, int),
    DecodeError,
> {
    match spec_varint(b, pos) {
        Ok(size) => if !interpret {
            match spec_skip(b.len() as int, size.1, size.0) {
                Ok(p2) => Ok((None, p2)),
                Err(e) => Err(e),
            }
        } else {
            match spec_varint(b, size.1) {
                Ok(groups) => match spec_locals(b, groups.1, groups.0 as nat) {
                    Ok(p3) => match spec_exec(b, p3, Seq::empty()) {
                        Ok(res) => Ok((Some(res.0), res.1)),
                        Err(e) => Err(e),
                    },
                    Err(e) => Err(e),
                },
                Err(e) => Err(e),
            }
        },
        Err(e) => Err(e),
    }
}

/// Fold the result already found into the outcome of the bodies that follow
/// it.
pub open spec fn spec_found(found: Option<i32>, rest: Result<(Option<i32>, int), DecodeError>)
    -> Result<(Option<i32>, int), DecodeError> {
    match rest {
        Ok(r) => Ok(
            (
                if found is Some {
                    found
                } else {
                    r.0
                },
                r.1,
            ),
        ),
        Err(e) => Err(e),
    }
}

/// `count` function bodies starting at `pos`.  The body whose zero-based
/// position equals `target` is interpreted; every other body is skipped by
/// its declared length.  At most one body yields a value.
pub open spec fn spec_bodies(b: Seq<u8>, pos: int, count: nat, target: int) -> Result<
    (Option<i32>, int),
    DecodeError,
>
    decreases count,
{
    if count == 0 {
        Ok((None, pos))
    } else {
        match spec_body(b, pos, target == 0) {
            Ok(first) => spec_found(first.0, spec_bodies(b, first.1, (count - 1) as nat, target - 1)),
            Err(e) => Err(e),
        }
    }
}

/// The Code section at `pos`: its frame — a missing frame is fatal, since
/// nothing can be executed without it — then the body count and the bodies,
/// with the body at `target` interpreted.  A `target` outside the bodies
/// yields no value rather than an error.
pub open spec fn spec_code_section(b: Seq<u8>, pos: int, target: int) -> Result<
    (Option<i32>, int),
    DecodeError,
> {
    match spec_section_header(b, pos, CODE_SECTION_ID) {
        Ok(frame) => match spec_varint(b, frame.1) {
            Ok(count) => spec_bodies(b, count.1, count.0 as nat, target),
            Err(e) => Err(e),
        },
        Err(e) => match e {
            DecodeError::UnexpectedSection { .. } => Err(DecodeError::MissingCodeSection),
            _ => Err(e),
        },
    }
}

/// The whole pipeline on a module's bytes: header, Type, Function, Export
/// and Code sections in that order, threading the type and declaration
/// counts forward, and interpreting the body at `target`.
pub open spec fn spec_run(b: Seq<u8>, target: int) -> Result<Option<i32>, DecodeError> {
    match spec_header(b, 0) {
        Ok(p0) => match spec_type_section(b, p0) {
            Ok(types) => match spec_func_section(b, types.1, types.0) {
                Ok(decls) => match spec_export_section(b, decls.1, decls.0) {
                    Ok(p3) => match spec_code_section(b, p3, target) {
                        Ok(res) => Ok(res.0),
                        Err(e) => Err(e),
                    },
                    Err(e) => Err(e),
                },
                Err(e) => Err(e),
            },
            Err(e) => Err(e),
        },
        Err(e) => Err(e),
    }
}

/// The number of function bodies the Code section declares, where the
/// module decodes that far at all.
pub open spec fn spec_body_count(b: Seq<u8>) -> Option<int> {
    match spec_header(b, 0) {
        Ok(p0) => match spec_type_section(b, p0) {
            Ok(types) => match spec_func_section(b, types.1, types.0) {
                Ok(decls) => match spec_export_section(b, decls.1, decls.0) {
                    Ok(p3) => match spec_section_header(b, p3, CODE_SECTION_ID) {
                        Ok(frame) => match spec_varint(b, frame.1) {
                            Ok(count) => Some(count.0),
                            Err(_) => None,
                        },
                        Err(_) => None,
                    },
                    Err(_) => None,
                },
                Err(_) => None,
            },
            Err(_) => None,
        },
        Err(_) => None,
    }
}

/// A declaration's type index is valid exactly when it lies strictly below
/// the number of decoded signatures.
pub fn check_type_index(type_index: u32, num_types: u32) -> (r: Result<(), DecodeError>)
    ensures
        r is Ok <==> type_index < num_types,
        r is Err ==> r == Err::<(), DecodeError>(DecodeError::InvalidTypeIndex),
{
    if type_index < num_types {
        Ok(())
    } else {
        Err(DecodeError::InvalidTypeIndex)
    }
}

/// An export's function index is valid exactly when it lies strictly below
/// the number of declared functions.
pub fn check_export_index(func_index: u32, num_decls: u32) -> (r: Result<(), DecodeError>)
    ensures
        r is Ok <==> func_index < num_decls,
        r is Err ==> r == Err::<(), DecodeError>(DecodeError::InvalidExportIndex),
{
    if func_index < num_decls {
        Ok(())
    } else {
        Err(DecodeError::InvalidExportIndex)
    }
}

impl Module {
    /// Wrap a byte buffer as a module.
    pub fn new(binary: Vec<u8>) -> (m: Module)
        ensures
            m@ == binary@,
    {
        Module { binary }
    }

    /// Check the 8-byte header at the cursor.  On success the cursor
    /// advances by exactly 8; on a mismatch it stays put and the error says
    /// whether the magic or the version failed.
    pub fn check_header(&self, cur: &mut usize) -> (r: Result<(), DecodeError>)
        requires
            *old(cur) <= self@.len(),
        ensures
            match r {
                Ok(()) => {
                    &&& spec_header(self@, *old(cur) as int) == Ok::<int, DecodeError>(
                        *final(cur) as int,
                    )
                    &&& *final(cur) == *old(cur) + 8
                },
                Err(e) => {
                    &&& spec_header(self@, *old(cur) as int) == Err::<int, DecodeError>(e)
                    &&& *final(cur) == *old(cur)
                },
            },
    {
        let pos = *cur;
        if self.binary.len() - pos < 8 {
            return Err(DecodeError::OutOfBounds);
        }
        if self.binary[pos] != 0x00 || self.binary[pos + 1] != 0x61 || self.binary[pos + 2]
            != 0x73 || self.binary[pos + 3] != 0x6d {
            return Err(DecodeError::HeaderError { field: HeaderField::Magic });
        }
        if self.binary[pos + 4] != 0x01 || self.binary[pos + 5] != 0x00 || self.binary[pos + 6]
            != 0x00 || self.binary[pos + 7] != 0x00 {
            return Err(DecodeError::HeaderError { field: HeaderField::Version });
        }
        *cur = pos + 8;
        Ok(())
    }

    /// Read one varint at the cursor.  On success the cursor moves just past
    /// the bytes read; on failure it stays put.
    pub fn read_var_u32(&self, cur: &mut usize) -> (r: Result<u32, DecodeError>)
        requires
            *old(cur) <= self@.len(),
        ensures
            match r {
                Ok(v) => {
                    &&& spec_varint(self@, *old(cur) as int) == Ok::<(int, int), DecodeError>(
                        (v as int, *final(cur) as int),
                    )
                    &&& *old(cur) < *final(cur) <= self@.len()
                },
                Err(e) => {
                    &&& spec_varint(self@, *old(cur) as int) == Err::<(int, int), DecodeError>(e)
                    &&& *final(cur) == *old(cur)
                },
            },
    {
        proof {
            reveal_with_fuel(varint_val, 6);
        }
        let pos = *cur;
        let len = self.binary.len();
        if pos >= len {
            return Err(DecodeError::OutOfBounds);
        }
        let b0 = self.binary[pos];
        if b0 < 0x80 {
            *cur = pos + 1;
            return Ok(b0 as u32);
        }
        if pos + 1 >= len {
            return Err(DecodeError::OutOfBounds);
        }
        let b1 = self.binary[pos + 1];
        if b1 < 0x80 {
            *cur = pos + 2;
            return Ok((b0 % 0x80) as u32 + 0x80 * b1 as u32);
        }
        if pos + 2 >= len {
            return Err(DecodeError::OutOfBounds);
        }
        let b2 = self.binary[pos + 2];
        if b2 < 0x80 {
            *cur = pos + 3;
            return Ok(
                (b0 % 0x80) as u32 + 0x80 * (b1 % 0x80) as u32 + 0x4000 * b2 as u32,
            );
        }
        if pos + 3 >= len {
            return Err(DecodeError::OutOfBounds);
        }
        let b3 = self.binary[pos + 3];
        if b3 < 0x80 {
            *cur = pos + 4;
            return Ok(
                (b0 % 0x80) as u32 + 0x80 * (b1 % 0x80) as u32 + 0x4000 * (b2 % 0x80) as u32
                    + 0x200000 * b3 as u32,
            );
        }
        if pos + 4 >= len {
            return Err(DecodeError::OutOfBounds);
        }
        let b4 = self.binary[pos + 4];
        if b4 >= 0x10 {
            return Err(DecodeError::InvalidVarint);
        }
        *cur = pos + 5;
        Ok(
            (b0 % 0x80) as u32 + 0x80 * (b1 % 0x80) as u32 + 0x4000 * (b2 % 0x80) as u32
                + 0x200000 * (b3 % 0x80) as u32 + 0x10000000 * b4 as u32,
        )
    }

    /// Advance the cursor by `n` bytes without reading them, or fail without
    /// moving when fewer than `n` remain.
    fn skip_bytes(&self, cur: &mut usize, n: u32) -> (r: Result<(), DecodeError>)
        requires
            *old(cur) <= self@.len(),
        ensures
            match r {
                Ok(()) => {
                    &&& spec_skip(self@.len() as int, *old(cur) as int, n as int) == Ok::<
                        int,
                        DecodeError,
                    >(*final(cur) as int)
                    &&& *final(cur) == *old(cur) + n
                },
                Err(e) => {
                    &&& spec_skip(self@.len() as int, *old(cur) as int, n as int) == Err::<
                        int,
                        DecodeError,
                    >(e)
                    &&& *final(cur) == *old(cur)
                },
            },
    {
        let pos = *cur;
        if n as usize <= self.binary.len() - pos {
            *cur = pos + n as usize;
            Ok(())
        } else {
            Err(DecodeError::OutOfBounds)
        }
    }

    /// Read a section frame at the cursor: the id byte, which must equal
    /// `expected_id`, then the varint size.  On an id mismatch the cursor
    /// rests just past the id byte; decoding does not recover from that.
    pub fn read_section_header(&self, cur: &mut usize, expected_id: u8) -> (r: Result<
        u32,
        DecodeError,
    >)
        requires
            *old(cur) <= self@.len(),
        ensures
            match r {
                Ok(size) => {
                    &&& spec_section_header(self@, *old(cur) as int, expected_id) == Ok::<
                        (int, int),
                        DecodeError,
                    >((size as int, *final(cur) as int))
                    &&& *old(cur) < *final(cur) <= self@.len()
                },
                Err(e) => {
                    &&& spec_section_header(self@, *old(cur) as int, expected_id) == Err::<
                        (int, int),
                        DecodeError,
                    >(e)
                    &&& *final(cur) as int == if *old(cur) < self@.len() {
                        *old(cur) + 1
                    } else {
                        *old(cur) as int
                    }
                },
            },
    {
        let pos = *cur;
        if pos >= self.binary.len() {
            return Err(DecodeError::OutOfBounds);
        }
        let id = self.binary[pos];
        *cur = pos + 1;
        if id != expected_id {
            return Err(DecodeError::UnexpectedSection { found: id, expected: expected_id });
        }
        self.read_var_u32(cur)
    }

    /// Decode one function signature at the cursor: the parameter count and
    /// codes, then the result count and codes.
    pub fn decode_func(&self, cur: &mut usize) -> (r: Result<(), DecodeError>)
        requires
            *old(cur) <= self@.len(),
        ensures
            match r {
                Ok(()) => {
                    &&& spec_sig(self@, *old(cur) as int) == Ok::<int, DecodeError>(
                        *final(cur) as int,
                    )
                    &&& *old(cur) <= *final(cur) <= self@.len()
                },
                Err(e) => spec_sig(self@, *old(cur) as int) == Err::<int, DecodeError>(e),
            },
    {
        let num_args = self.read_var_u32(cur)?;
        self.skip_bytes(cur, num_args)?;
        let num_rets = self.read_var_u32(cur)?;
        self.skip_bytes(cur, num_rets)?;
        Ok(())
    }

    /// Decode the Type section at the cursor and return the number of
    /// signatures it holds.
    pub fn decode_type_section(&self, cur: &mut usize) -> (r: Result<u32, DecodeError>)
        requires
            *old(cur) <= self@.len(),
        ensures
            match r {
                Ok(n) => {
                    &&& spec_type_section(self@, *old(cur) as int) == Ok::<
                        (int, int),
                        DecodeError,
                    >((n as int, *final(cur) as int))
                    &&& *final(cur) <= self@.len()
                },
                Err(e) => spec_type_section(self@, *old(cur) as int) == Err::<
                    (int, int),
                    DecodeError,
                >(e),
            },
    {
        self.read_section_header(cur, TYPE_SECTION_ID)?;
        let num_types = self.read_var_u32(cur)?;
        let mut i: u32 = 0;
        while i < num_types
            invariant
                i <= num_types,
                *cur <= self@.len(),
                spec_type_section(self@, *old(cur) as int) == (match spec_sigs(
                    self@,
                    *cur as int,
                    (num_types - i) as nat,
                ) {
                    Ok(p3) => Ok::<(int, int), DecodeError>((num_types as int, p3)),
                    Err(e) => Err(e),
                }),
            decreases num_types - i,
        {
            let _form = self.read_var_u32(cur)?;
            self.decode_func(cur)?;
            i = i + 1;
        }
        Ok(num_types)
    }

    /// Decode the Function section at the cursor, validating every type
    /// index against `num_func_types`, and return the number of declared
    /// functions.
    pub fn decode_func_decl(&self, num_func_types: u32, cur: &mut usize) -> (r: Result<
        u32,
        DecodeError,
    >)
        requires
            *old(cur) <= self@.len(),
        ensures
            match r {
                Ok(n) => {
                    &&& spec_func_section(self@, *old(cur) as int, num_func_types as int)
                        == Ok::<(int, int), DecodeError>((n as int, *final(cur) as int))
                    &&& *final(cur) <= self@.len()
                },
                Err(e) => spec_func_section(self@, *old(cur) as int, num_func_types as int)
                    == Err::<(int, int), DecodeError>(e),
            },
    {
        self.read_section_header(cur, FUNCTION_SECTION_ID)?;
        let num_decls = self.read_var_u32(cur)?;
        let mut i: u32 = 0;
        while i < num_decls
            invariant
                i <= num_decls,
                *cur <= self@.len(),
                spec_func_section(self@, *old(cur) as int, num_func_types as int) == (match spec_decls(
                    self@,
                    *cur as int,
                    (num_decls - i) as nat,
                    num_func_types as int,
                ) {
                    Ok(p3) => Ok::<(int, int), DecodeError>((num_decls as int, p3)),
                    Err(e) => Err(e),
                }),
            decreases num_decls - i,
        {
            let func_type_index = self.read_var_u32(cur)?;
            check_type_index(func_type_index, num_func_types)?;
            i = i + 1;
        }
        Ok(num_decls)
    }

    /// Decode the Export section at the cursor, skipping each name and
    /// validating every exported function index against `num_decls`.
    pub fn decode_exports_section(&self, num_decls: u32, cur: &mut usize) -> (r: Result<
        (),
        DecodeError,
    >)
        requires
            *old(cur) <= self@.len(),
        ensures
            match r {
                Ok(()) => {
                    &&& spec_export_section(self@, *old(cur) as int, num_decls as int) == Ok::<
                        int,
                        DecodeError,
                    >(*final(cur) as int)
                    &&& *final(cur) <= self@.len()
                },
                Err(e) => spec_export_section(self@, *old(cur) as int, num_decls as int)
                    == Err::<int, DecodeError>(e),
            },
    {
        self.read_section_header(cur, EXPORT_SECTION_ID)?;
        let num_exports = self.read_var_u32(cur)?;
        let mut i: u32 = 0;
        while i < num_exports
            invariant
                i <= num_exports,
                *cur <= self@.len(),
                spec_export_section(self@, *old(cur) as int, num_decls as int) == spec_exports(
                    self@,
                    *cur as int,
                    (num_exports - i) as nat,
                    num_decls as int,
                ),
            decreases num_exports - i,
        {
            let name_len = self.read_var_u32(cur)?;
            self.skip_bytes(cur, name_len)?;
            let _export_kind = self.read_var_u32(cur)?;
            let func_index = self.read_var_u32(cur)?;
            check_export_index(func_index, num_decls)?;
            i = i + 1;
        }
        Ok(())
    }

    /// Evaluate the instruction stream at the cursor with the stack machine,
    /// starting from an empty operand stack.  On success the cursor rests
    /// just past the end opcode that produced the result.
    pub fn interpret(&self, cur: &mut usize) -> (r: Result<i32, DecodeError>)
        requires
            *old(cur) <= self@.len(),
        ensures
            match r {
                Ok(v) => {
                    &&& spec_exec(self@, *old(cur) as int, Seq::empty()) == Ok::<
                        (i32, int),
                        DecodeError,
                    >((v, *final(cur) as int))
                    &&& *final(cur) <= self@.len()
                },
                Err(e) => spec_exec(self@, *old(cur) as int, Seq::empty()) == Err::<
                    (i32, int),
                    DecodeError,
                >(e),
            },
    {
        let mut stack: Vec<i32> = Vec::new();
        loop
            invariant
                *cur <= self@.len(),
                spec_exec(self@, *old(cur) as int, Seq::empty()) == spec_exec(
                    self@,
                    *cur as int,
                    stack@,
                ),
            decreases self@.len() - *cur,
        {
            let ghost s = stack@;
            if *cur >= self.binary.len() {
                return Err(DecodeError::PrematureEnd);
            }
            let opcode = self.binary[*cur];
            *cur = *cur + 1;
            if opcode == OPCODE_NOP {
                // No stack effect; evaluation continues at the next opcode.
            } else if opcode == OPCODE_END {
                match stack.pop() {
                    Some(v) => {
                        return Ok(v);
                    },
                    None => {
                        return Err(DecodeError::StackUnderflow);
                    },
                }
            } else if opcode == OPCODE_I32_CONST {
                let raw = self.read_var_u32(cur)?;
                let val = u32_to_i32(raw);
                stack.push(val);
                proof {
                    assert(stack@ =~= s.push(i32_of_u32(raw)));
                }
            } else if opcode == OPCODE_I32_ADD {
                let a = match stack.pop() {
                    Some(x) => x,
                    None => {
                        return Err(DecodeError::StackUnderflow);
                    },
                };
                let b = match stack.pop() {
                    Some(x) => x,
                    None => {
                        return Err(DecodeError::StackUnderflow);
                    },
                };
                stack.push(b.wrapping_add(a));
                proof {
                    assert(stack@ =~= s.take(s.len() - 2).push(
                        vstd::wrapping::i32_specs::wrapping_add(s[s.len() - 2], s[s.len() - 1]),
                    ));
                }
            } else {
                return Err(DecodeError::UnknownOpcode { byte: opcode });
            }
        }
    }

    /// Decode one function body at the cursor.  When `must_interpret` is
    /// false the body's bytes are skipped by exactly its declared length,
    /// leaving the cursor at the next body's own size field; otherwise the
    /// locals are consumed and the instruction stream is evaluated.
    pub fn decode_func_body(&self, must_interpret: bool, cur: &mut usize) -> (r: Result<
        Option<i32>,
        DecodeError,
    >)
        requires
            *old(cur) <= self@.len(),
        ensures
            match r {
                Ok(res) => {
                    &&& spec_body(self@, *old(cur) as int, must_interpret) == Ok::<
                        (Option<i32>, int),
                        DecodeError,
                    >((res, *final(cur) as int))
                    &&& *final(cur) <= self@.len()
                    &&& !must_interpret ==> res is None
                },
                Err(e) => spec_body(self@, *old(cur) as int, must_interpret) == Err::<
                    (Option<i32>, int),
                    DecodeError,
                >(e),
            },
    {
        let body_size = self.read_var_u32(cur)?;
        if !must_interpret {
            self.skip_bytes(cur, body_size)?;
            return Ok(None);
        }
        let num_local_groups = self.read_var_u32(cur)?;
        let mut i: u32 = 0;
        while i < num_local_groups
            invariant
                must_interpret,
                i <= num_local_groups,
                *cur <= self@.len(),
                match spec_locals(self@, *cur as int, (num_local_groups - i) as nat) {
                    Ok(p3) => spec_body(self@, *old(cur) as int, true) == (match spec_exec(
                        self@,
                        p3,
                        Seq::empty(),
                    ) {
                        Ok(res) => Ok::<(Option<i32>, int), DecodeError>((Some(res.0), res.1)),
                        Err(e) => Err(e),
                    }),
                    Err(e) => spec_body(self@, *old(cur) as int, true) == Err::<
                        (Option<i32>, int),
                        DecodeError,
                    >(e),
                },
            decreases num_local_groups - i,
        {
            let _group_count = self.read_var_u32(cur)?;
            self.skip_bytes(cur, 1)?;
            i = i + 1;
        }
        let v = self.interpret(cur)?;
        Ok(Some(v))
    }

    /// Decode the Code section at the cursor.  The body at `callee_index`
    /// is interpreted and its value returned; every other body is skipped.
    /// A `callee_index` at or beyond the body count yields `None`.
    pub fn decode_code_section(&self, callee_index: usize, cur: &mut usize) -> (r: Result<
        Option<i32>,
        DecodeError,
    >)
        requires
            *old(cur) <= self@.len(),
        ensures
            match r {
                Ok(res) => {
                    &&& spec_code_section(self@, *old(cur) as int, callee_index as int) == Ok::<
                        (Option<i32>, int),
                        DecodeError,
                    >((res, *final(cur) as int))
                    &&& *final(cur) <= self@.len()
                },
                Err(e) => spec_code_section(self@, *old(cur) as int, callee_index as int)
                    == Err::<(Option<i32>, int), DecodeError>(e),
            },
    {
        let _size = match self.read_section_header(cur, CODE_SECTION_ID) {
            Ok(s) => s,
            Err(e) => {
                return Err(
                    match e {
                        DecodeError::UnexpectedSection { .. } => DecodeError::MissingCodeSection,
                        _ => e,
                    },
                );
            },
        };
        let num_func_defs = self.read_var_u32(cur)?;
        let mut result: Option<i32> = None;
        let mut i: u32 = 0;
        while i < num_func_defs
            invariant
                i <= num_func_defs,
                *cur <= self@.len(),
                spec_code_section(self@, *old(cur) as int, callee_index as int) == spec_found(
                    result,
                    spec_bodies(
                        self@,
                        *cur as int,
                        (num_func_defs - i) as nat,
                        callee_index as int - i as int,
                    ),
                ),
            decreases num_func_defs - i,
        {
            let must_interpret = i as usize == callee_index;
            let res = self.decode_func_body(must_interpret, cur)?;
            if result.is_none() {
                result = res;
            }
            i = i + 1;
        }
        Ok(result)
    }

    /// Decode the whole module and interpret the function body at
    /// `func_index` in the Code section.  `Ok(Some(v))` when that body ran
    /// to completion with result `v`; `Ok(None)` when decoding succeeded
    /// but `func_index` lies outside the bodies; an error for any
    /// structural failure or interpreter fault.
    pub fn call_func(&self, func_index: usize) -> (r: Result<Option<i32>, DecodeError>)
        ensures
            r == spec_run(self@, func_index as int),
    {
        let mut cur: usize = 0;
        self.check_header(&mut cur)?;
        let num_types = self.decode_type_section(&mut cur)?;
        let num_decls = self.decode_func_decl(num_types, &mut cur)?;
        self.decode_exports_section(num_decls, &mut cur)?;
        let result = self.decode_code_section(func_index, &mut cur)?;
        Ok(result)
    }
}

/// Decode `module_bytes` and interpret the function body at
/// `target_function_index`, as [`Module::call_func`] does.
pub fn run(module_bytes: Vec<u8>, target_function_index: usize) -> (r: Result<
    Option<i32>,
    DecodeError,
>)
    ensures
        r == spec_run(module_bytes@, target_function_index as int),
{
    let m = Module::new(module_bytes);
    m.call_func(target_function_index)
}

/// Determinism: the outcome of a run is a function of the module's bytes
/// and the target index alone, so two runs over the same bytes and target
/// agree, result or fault alike.  [`Module::call_func`] returns exactly
/// `spec_run` of its inputs, so this carries over to every executable call.
pub proof fn lemma_run_deterministic(
    b: Seq<u8>,
    target: int,
    r1: Result<Option<i32>, DecodeError>,
    r2: Result<Option<i32>, DecodeError>,
)
    requires
        r1 == spec_run(b, target),
        r2 == spec_run(b, target),
    ensures
        r1 == r2,
{
}

/// Bodies decoded with a target that lies at or beyond all of them are all
/// skipped, so no value is produced.
proof fn lemma_bodies_skip_all(b: Seq<u8>, pos: int, count: nat, target: int)
    requires
        target >= count,
        spec_bodies(b, pos, count, target) is Ok,
    ensures
        spec_bodies(b, pos, count, target) matches Ok(r) && r.0 is None,
    decreases count,
{
    if count > 0 {
        let first = spec_body(b, pos, false);
        assert(spec_body(b, pos, target == 0) == first);
        lemma_bodies_skip_all(b, first->Ok_0.1, (count - 1) as nat, target - 1);
    }
}

/// An out-of-range target index is not an error: whenever the module
/// decodes at all with such a target, the run yields `Ok(None)` — no body
/// is interpreted and no out-of-bounds read happens.
pub proof fn lemma_out_of_range_target(b: Seq<u8>, target: int)
    requires
        spec_run(b, target) is Ok,
        spec_body_count(b) matches Some(count) && target >= count,
    ensures
        spec_run(b, target) == Ok::<Option<i32>, DecodeError>(None),
{
    let p0 = spec_header(b, 0)->Ok_0;
    let types = spec_type_section(b, p0)->Ok_0;
    let decls = spec_func_section(b, types.1, types.0)->Ok_0;
    let p3 = spec_export_section(b, decls.1, decls.0)->Ok_0;
    let frame = spec_section_header(b, p3, CODE_SECTION_ID)->Ok_0;
    let count = spec_varint(b, frame.1)->Ok_0;
    crate::varint::lemma_val_nonneg(b, frame.1, varint_good_len(b, frame.1));
    lemma_bodies_skip_all(b, count.1, count.0 as nat, target);
}

} // verus!
