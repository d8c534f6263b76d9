//! The cursor that instructions read their operands through.

use crate::bits::{
    be_u16, be_u32, fits, lemma_join_u16, lemma_join_u32, signed16, signed32, signed8, to_i16,
    to_i32, to_i8,
};
use crate::error::RuntimeError;
use vstd::prelude::*;

verus! {

/// The `n` signed big-endian 32-bit values that start at `pos`.
pub open spec fn be_i32_run(code: Seq<u8>, pos: int, n: int) -> Seq<i32> {
    Seq::new(n as nat, |i: int| signed32(be_u32(code, pos + 4 * i)))
}

/// Number of bytes from `pc` to the next multiple of four.
pub open spec fn padding(pc: int) -> int {
    (4 - pc % 4) % 4
}

/// A program counter over the code of one method. Operands are big-endian.
/// A read that would pass the end of the code fails and leaves the reader as
/// it was.
#[derive(Debug, PartialEq, Eq)]
pub struct ByteCodeReader {
    pub code: Vec<u8>,
    pub pc: usize,
}

impl ByteCodeReader {
    /// The code that is read.
    pub open spec fn code(self) -> Seq<u8> {
        self.code@
    }

    /// This reader is `from` after a read of `n` bytes.
    pub open spec fn took(self, from: Self, n: int) -> bool {
        &&& fits(from.code(), from.pc as int, n)
        &&& self.code() == from.code()
        &&& self.pc == from.pc + n
    }

    /// This reader is `from` after a read of `n` bytes for which the code was
    /// too short: nothing has changed.
    pub open spec fn ran_out(self, from: Self, e: RuntimeError, n: int) -> bool {
        &&& e == RuntimeError::TruncatedCode
        &&& !fits(from.code(), from.pc as int, n)
        &&& self == from
    }

    pub fn new(code: Vec<u8>) -> (reader: ByteCodeReader)
        ensures
            reader.code() == code@,
            reader.pc == 0,
    {
        ByteCodeReader { code, pc: 0 }
    }

    /// Number of bytes of code.
    pub fn len(&self) -> (n: usize)
        ensures
            n == self.code().len(),
    {
        self.code.len()
    }

    /// Whether `n` more bytes can be read.
    fn has(&self, n: usize) -> (yes: bool)
        ensures
            yes == fits(self.code(), self.pc as int, n as int),
            yes ==> self.pc + n <= usize::MAX,
    {
        self.pc <= self.code.len() && self.code.len() - self.pc >= n
    }

    pub fn read_u8(&mut self) -> (r: Result<u8, RuntimeError>)
        ensures
            match r {
                Ok(v) => final(self).took(*old(self), 1) && v == old(self).code()[old(
                    self,
                ).pc as int],
                Err(e) => final(self).ran_out(*old(self), e, 1),
            },
    {
        if !self.has(1) {
            return Err(RuntimeError::TruncatedCode);
        }
        let d: u8 = self.code[self.pc];
        self.pc += 1;
        Ok(d)
    }

    pub fn read_i8(&mut self) -> (r: Result<i8, RuntimeError>)
        ensures
            match r {
                Ok(v) => final(self).took(*old(self), 1) && v == signed8(
                    old(self).code()[old(self).pc as int],
                ),
                Err(e) => final(self).ran_out(*old(self), e, 1),
            },
    {
        Ok(to_i8(self.read_u8()?))
    }

    pub fn read_u16(&mut self) -> (r: Result<u16, RuntimeError>)
        ensures
            match r {
                Ok(v) => final(self).took(*old(self), 2) && v == be_u16(
                    old(self).code(),
                    old(self).pc as int,
                ),
                Err(e) => final(self).ran_out(*old(self), e, 2),
            },
    {
        if !self.has(2) {
            return Err(RuntimeError::TruncatedCode);
        }
        let b1: u16 = self.read_u8()? as u16;
        let b2: u16 = self.read_u8()? as u16;
        proof {
            lemma_join_u16(b1, b2);
        }
        Ok((b1 << 8) | b2)
    }

    pub fn read_i16(&mut self) -> (r: Result<i16, RuntimeError>)
        ensures
            match r {
                Ok(v) => final(self).took(*old(self), 2) && v == signed16(
                    be_u16(old(self).code(), old(self).pc as int),
                ),
                Err(e) => final(self).ran_out(*old(self), e, 2),
            },
    {
        Ok(to_i16(self.read_u16()?))
    }

    pub fn read_i32(&mut self) -> (r: Result<i32, RuntimeError>)
        ensures
            match r {
                Ok(v) => final(self).took(*old(self), 4) && v == signed32(
                    be_u32(old(self).code(), old(self).pc as int),
                ),
                Err(e) => final(self).ran_out(*old(self), e, 4),
            },
    {
        if !self.has(4) {
            return Err(RuntimeError::TruncatedCode);
        }
        let high: u32 = self.read_u16()? as u32;
        let low: u32 = self.read_u16()? as u32;
        proof {
            lemma_join_u32(high, low);
        }
        Ok(to_i32((high << 16) | low))
    }

    /// Reads `n` 32-bit values.
    pub fn read_i32s(&mut self, n: usize) -> (r: Result<Vec<i32>, RuntimeError>)
        ensures
            match r {
                Ok(v) => final(self).took(*old(self), 4 * n) && v@ == be_i32_run(
                    old(self).code(),
                    old(self).pc as int,
                    n as int,
                ),
                Err(e) => final(self).ran_out(*old(self), e, 4 * n),
            },
    {
        if self.pc > self.code.len() || (self.code.len() - self.pc) / 4 < n {
            return Err(RuntimeError::TruncatedCode);
        }
        let mut vec: Vec<i32> = Vec::new();
        let mut i: usize = 0;
        while i < n
            invariant
                i <= n,
                fits(old(self).code(), old(self).pc as int, 4 * n),
                self.took(*old(self), 4 * i),
                vec@ == be_i32_run(old(self).code(), old(self).pc as int, i as int),
            decreases n - i,
        {
            let v: i32 = self.read_i32()?;
            vec.push(v);
            i += 1;
            assert(vec@ =~= be_i32_run(old(self).code(), old(self).pc as int, i as int));
        }
        Ok(vec)
    }

    /// Moves on to the next position that is a multiple of four.
    pub fn skip_padding(&mut self) -> (r: Result<(), RuntimeError>)
        ensures
            match r {
                Ok(_) => {
                    let pad = padding(old(self).pc as int);
                    &&& pad == 0 || fits(old(self).code(), old(self).pc as int, pad)
                    &&& final(self).code() == old(self).code()
                    &&& final(self).pc == old(self).pc + pad
                },
                Err(e) => padding(old(self).pc as int) != 0 && final(self).ran_out(
                    *old(self),
                    e,
                    padding(old(self).pc as int),
                ),
            },
    {
        let pad: usize = (4 - self.pc % 4) % 4;
        if pad != 0 {
            if !self.has(pad) {
                return Err(RuntimeError::TruncatedCode);
            }
            self.pc += pad;
        }
        Ok(())
    }

    /// Starts over with other code, at `pc`.
    pub fn reset(&mut self, code: Vec<u8>, pc: usize)
        ensures
            final(self).code() == code@,
            final(self).pc == pc,
    {
        self.code = code;
        self.pc = pc;
    }
}

} // verus!
