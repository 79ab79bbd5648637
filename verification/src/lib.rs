//! A decoder and interpreter for a minimal WebAssembly-style binary module
//! format.
//!
//! A module is a flat byte buffer: an 8-byte header (magic and version),
//! then a fixed order of sections (Type, Function, Export, Code), each framed
//! by a one-byte id and a varint size.  [`decode::Module::call_func`] walks
//! the sections with a single monotonically advancing cursor, validates the
//! structural invariants, and interprets exactly one function body from the
//! Code section with a small stack machine.

pub mod decode;
pub mod error;
pub mod interp;
pub mod varint;
