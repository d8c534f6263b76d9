//! Execution core of a small class-file virtual machine.
//!
//! [`class`] decodes the binary class format: constant pool, members and
//! attributes, down to the bytecode inside `Code` attributes, and writes a
//! decoded class out again. [`env`] holds the frame and value model, the call
//! stack, and the instructions that run against a frame. [`bits`] says how
//! numbers lie in bytes and slots, and [`error`] names what can go wrong.

pub mod bits;
pub mod class;
pub mod env;
pub mod error;
pub mod jvm;
