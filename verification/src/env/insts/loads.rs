//! Loads: the instructions that copy a local variable onto the operand
//! stack.
//!
//! Each kind of value has one form that takes the index of the local
//! variable from the code, and four short forms for the indices 0 to 3.

use crate::bits::lemma_patterns;
use crate::env::basic_env_elements::{
    long_at, long_slots, num_at, ref_at, Frame, FrameModel, Slot,
};
use crate::env::byte_code_reader::ByteCodeReader;
use crate::error::RuntimeError;
use vstd::prelude::*;

verus! {

/// The frame `f` after a push of `slots`.
pub open spec fn push_onto(f: FrameModel, slots: Seq<Slot>) -> Result<FrameModel, RuntimeError> {
    if f.stack.len() + slots.len() > f.max_stack {
        Err(RuntimeError::StackOverflow)
    } else {
        Ok(FrameModel { locals: f.locals, stack: f.stack + slots, max_stack: f.max_stack })
    }
}

/// The frame `f` after the 32-bit number in local variable `index` has been
/// pushed.
pub open spec fn load_word(f: FrameModel, index: int) -> Result<FrameModel, RuntimeError> {
    match num_at(f.locals, index) {
        Ok(v) => push_onto(f, seq![Slot::Num(v)]),
        Err(e) => Err(e),
    }
}

/// The frame `f` after the 64-bit number in local variables `index` and
/// `index + 1` has been pushed.
pub open spec fn load_long(f: FrameModel, index: int) -> Result<FrameModel, RuntimeError> {
    match long_at(f.locals, index) {
        Ok(v) => push_onto(f, long_slots(v)),
        Err(e) => Err(e),
    }
}

/// The frame `f` after the reference in local variable `index` has been
/// pushed.
pub open spec fn load_ref(f: FrameModel, index: int) -> Result<FrameModel, RuntimeError> {
    match ref_at(f.locals, index) {
        Ok(object) => push_onto(f, seq![Slot::Ref(object)]),
        Err(e) => Err(e),
    }
}

/// An instruction with the effect `expected` has turned the frame `before`
/// into `after` and answered `r`. Where it failed, the frame is unchanged.
pub open spec fn stepped(
    before: Frame,
    after: Frame,
    expected: Result<FrameModel, RuntimeError>,
    r: Result<(), RuntimeError>,
) -> bool {
    &&& after.wf()
    &&& match r {
        Ok(_) => expected == Ok::<FrameModel, RuntimeError>(after@),
        Err(e) => expected == Err::<FrameModel, RuntimeError>(e) && after == before,
    }
}

/// Pushes local variable `index`, read as an int.
pub fn iload(frame: &mut Frame, index: u8) -> (r: Result<(), RuntimeError>)
    requires
        old(frame).wf(),
    ensures
        stepped(*old(frame), *final(frame), load_word(old(frame)@, index as int), r),
{
    let val = frame.local_vars.get_i32(index as usize)?;
    proof {
        lemma_patterns(0, 0, 0, 0);
    }
    frame.operand_stack.push_i32(val)
}

/// Load of an int from the local variable whose index follows the opcode.
#[derive(Clone, Copy, Debug, PartialEq, Eq, Structural)]
pub struct ILoad {
    pub index: u8,
}

impl ILoad {
    /// Reads the index of the local variable.
    pub fn fetch_operands(&mut self, reader: &mut ByteCodeReader) -> (r: Result<(), RuntimeError>)
        ensures
            match r {
                Ok(_) => final(reader).took(*old(reader), 1) && final(self).index == old(
                    reader,
                ).code()[old(reader).pc as int],
                Err(e) => final(reader).ran_out(*old(reader), e, 1) && *final(self) == *old(self),
            },
    {
        self.index = reader.read_u8()?;
        Ok(())
    }

    pub fn execute(&mut self, frame: &mut Frame) -> (r: Result<(), RuntimeError>)
        requires
            old(frame).wf(),
        ensures
            *final(self) == *old(self),
            stepped(*old(frame), *final(frame), load_word(old(frame)@, old(self).index as int), r),
    {
        iload(frame, self.index)
    }
}

/// Load of an int from local variable 0.
#[allow(non_camel_case_types)]
#[derive(Clone, Copy, Debug, PartialEq, Eq, Structural)]
pub struct ILoad_0 {}

impl ILoad_0 {
    /// Reads nothing: the index is part of the opcode.
    pub fn fetch_operands(&mut self, reader: &mut ByteCodeReader) -> (r: Result<(), RuntimeError>)
        ensures
            r is Ok,
            *final(reader) == *old(reader),
            *final(self) == *old(self),
    {
        Ok(())
    }

    pub fn execute(&mut self, frame: &mut Frame) -> (r: Result<(), RuntimeError>)
        requires
            old(frame).wf(),
        ensures
            *final(self) == *old(self),
            stepped(*old(frame), *final(frame), load_word(old(frame)@, 0), r),
    {
        iload(frame, 0)
    }
}

/// Load of an int from local variable 1.
#[allow(non_camel_case_types)]
#[derive(Clone, Copy, Debug, PartialEq, Eq, Structural)]
pub struct ILoad_1 {}

impl ILoad_1 {
    /// Reads nothing: the index is part of the opcode.
    pub fn fetch_operands(&mut self, reader: &mut ByteCodeReader) -> (r: Result<(), RuntimeError>)
        ensures
            r is Ok,
            *final(reader) == *old(reader),
            *final(self) == *old(self),
    {
        Ok(())
    }

    pub fn execute(&mut self, frame: &mut Frame) -> (r: Result<(), RuntimeError>)
        requires
            old(frame).wf(),
        ensures
            *final(self) == *old(self),
            stepped(*old(frame), *final(frame), load_word(old(frame)@, 1), r),
    {
        iload(frame, 1)
    }
}

/// Load of an int from local variable 2.
#[allow(non_camel_case_types)]
#[derive(Clone, Copy, Debug, PartialEq, Eq, Structural)]
pub struct ILoad_2 {}

impl ILoad_2 {
    /// Reads nothing: the index is part of the opcode.
    pub fn fetch_operands(&mut self, reader: &mut ByteCodeReader) -> (r: Result<(), RuntimeError>)
        ensures
            r is Ok,
            *final(reader) == *old(reader),
            *final(self) == *old(self),
    {
        Ok(())
    }

    pub fn execute(&mut self, frame: &mut Frame) -> (r: Result<(), RuntimeError>)
        requires
            old(frame).wf(),
        ensures
            *final(self) == *old(self),
            stepped(*old(frame), *final(frame), load_word(old(frame)@, 2), r),
    {
        iload(frame, 2)
    }
}

/// Load of an int from local variable 3.
#[allow(non_camel_case_types)]
#[derive(Clone, Copy, Debug, PartialEq, Eq, Structural)]
pub struct ILoad_3 {}

impl ILoad_3 {
    /// Reads nothing: the index is part of the opcode.
    pub fn fetch_operands(&mut self, reader: &mut ByteCodeReader) -> (r: Result<(), RuntimeError>)
        ensures
            r is Ok,
            *final(reader) == *old(reader),
            *final(self) == *old(self),
    {
        Ok(())
    }

    pub fn execute(&mut self, frame: &mut Frame) -> (r: Result<(), RuntimeError>)
        requires
            old(frame).wf(),
        ensures
            *final(self) == *old(self),
            stepped(*old(frame), *final(frame), load_word(old(frame)@, 3), r),
    {
        iload(frame, 3)
    }
}

/// Pushes local variable `index`, read as a long.
pub fn lload(frame: &mut Frame, index: u8) -> (r: Result<(), RuntimeError>)
    requires
        old(frame).wf(),
    ensures
        stepped(*old(frame), *final(frame), load_long(old(frame)@, index as int), r),
{
    let val = frame.local_vars.get_i64(index as usize)?;
    proof {
        lemma_patterns(0, 0, 0, 0);
    }
    frame.operand_stack.push_i64(val)
}

/// Load of a long from the local variable whose index follows the opcode.
#[derive(Clone, Copy, Debug, PartialEq, Eq, Structural)]
pub struct LLoad {
    pub index: u8,
}

impl LLoad {
    /// Reads the index of the local variable.
    pub fn fetch_operands(&mut self, reader: &mut ByteCodeReader) -> (r: Result<(), RuntimeError>)
        ensures
            match r {
                Ok(_) => final(reader).took(*old(reader), 1) && final(self).index == old(
                    reader,
                ).code()[old(reader).pc as int],
                Err(e) => final(reader).ran_out(*old(reader), e, 1) && *final(self) == *old(self),
            },
    {
        self.index = reader.read_u8()?;
        Ok(())
    }

    pub fn execute(&mut self, frame: &mut Frame) -> (r: Result<(), RuntimeError>)
        requires
            old(frame).wf(),
        ensures
            *final(self) == *old(self),
            stepped(*old(frame), *final(frame), load_long(old(frame)@, old(self).index as int), r),
    {
        lload(frame, self.index)
    }
}

/// Load of a long from local variable 0.
#[allow(non_camel_case_types)]
#[derive(Clone, Copy, Debug, PartialEq, Eq, Structural)]
pub struct LLoad_0 {}

impl LLoad_0 {
    /// Reads nothing: the index is part of the opcode.
    pub fn fetch_operands(&mut self, reader: &mut ByteCodeReader) -> (r: Result<(), RuntimeError>)
        ensures
            r is Ok,
            *final(reader) == *old(reader),
            *final(self) == *old(self),
    {
        Ok(())
    }

    pub fn execute(&mut self, frame: &mut Frame) -> (r: Result<(), RuntimeError>)
        requires
            old(frame).wf(),
        ensures
            *final(self) == *old(self),
            stepped(*old(frame), *final(frame), load_long(old(frame)@, 0), r),
    {
        lload(frame, 0)
    }
}

/// Load of a long from local variable 1.
#[allow(non_camel_case_types)]
#[derive(Clone, Copy, Debug, PartialEq, Eq, Structural)]
pub struct LLoad_1 {}

impl LLoad_1 {
    /// Reads nothing: the index is part of the opcode.
    pub fn fetch_operands(&mut self, reader: &mut ByteCodeReader) -> (r: Result<(), RuntimeError>)
        ensures
            r is Ok,
            *final(reader) == *old(reader),
            *final(self) == *old(self),
    {
        Ok(())
    }

    pub fn execute(&mut self, frame: &mut Frame) -> (r: Result<(), RuntimeError>)
        requires
            old(frame).wf(),
        ensures
            *final(self) == *old(self),
            stepped(*old(frame), *final(frame), load_long(old(frame)@, 1), r),
    {
        lload(frame, 1)
    }
}

/// Load of a long from local variable 2.
#[allow(non_camel_case_types)]
#[derive(Clone, Copy, Debug, PartialEq, Eq, Structural)]
pub struct LLoad_2 {}

impl LLoad_2 {
    /// Reads nothing: the index is part of the opcode.
    pub fn fetch_operands(&mut self, reader: &mut ByteCodeReader) -> (r: Result<(), RuntimeError>)
        ensures
            r is Ok,
            *final(reader) == *old(reader),
            *final(self) == *old(self),
    {
        Ok(())
    }

    pub fn execute(&mut self, frame: &mut Frame) -> (r: Result<(), RuntimeError>)
        requires
            old(frame).wf(),
        ensures
            *final(self) == *old(self),
            stepped(*old(frame), *final(frame), load_long(old(frame)@, 2), r),
    {
        lload(frame, 2)
    }
}

/// Load of a long from local variable 3.
#[allow(non_camel_case_types)]
#[derive(Clone, Copy, Debug, PartialEq, Eq, Structural)]
pub struct LLoad_3 {}

impl LLoad_3 {
    /// Reads nothing: the index is part of the opcode.
    pub fn fetch_operands(&mut self, reader: &mut ByteCodeReader) -> (r: Result<(), RuntimeError>)
        ensures
            r is Ok,
            *final(reader) == *old(reader),
            *final(self) == *old(self),
    {
        Ok(())
    }

    pub fn execute(&mut self, frame: &mut Frame) -> (r: Result<(), RuntimeError>)
        requires
            old(frame).wf(),
        ensures
            *final(self) == *old(self),
            stepped(*old(frame), *final(frame), load_long(old(frame)@, 3), r),
    {
        lload(frame, 3)
    }
}

/// Pushes local variable `index`, read as a float.
pub fn fload(frame: &mut Frame, index: u8) -> (r: Result<(), RuntimeError>)
    requires
        old(frame).wf(),
    ensures
        stepped(*old(frame), *final(frame), load_word(old(frame)@, index as int), r),
{
    let val = frame.local_vars.get_f32(index as usize)?;
    proof {
        lemma_patterns(0, 0, 0, 0);
    }
    frame.operand_stack.push_f32(val)
}

/// Load of a float from the local variable whose index follows the opcode.
#[derive(Clone, Copy, Debug, PartialEq, Eq, Structural)]
pub struct FLoad {
    pub index: u8,
}

impl FLoad {
    /// Reads the index of the local variable.
    pub fn fetch_operands(&mut self, reader: &mut ByteCodeReader) -> (r: Result<(), RuntimeError>)
        ensures
            match r {
                Ok(_) => final(reader).took(*old(reader), 1) && final(self).index == old(
                    reader,
                ).code()[old(reader).pc as int],
                Err(e) => final(reader).ran_out(*old(reader), e, 1) && *final(self) == *old(self),
            },
    {
        self.index = reader.read_u8()?;
        Ok(())
    }

    pub fn execute(&mut self, frame: &mut Frame) -> (r: Result<(), RuntimeError>)
        requires
            old(frame).wf(),
        ensures
            *final(self) == *old(self),
            stepped(*old(frame), *final(frame), load_word(old(frame)@, old(self).index as int), r),
    {
        fload(frame, self.index)
    }
}

/// Load of a float from local variable 0.
#[allow(non_camel_case_types)]
#[derive(Clone, Copy, Debug, PartialEq, Eq, Structural)]
pub struct FLoad_0 {}

impl FLoad_0 {
    /// Reads nothing: the index is part of the opcode.
    pub fn fetch_operands(&mut self, reader: &mut ByteCodeReader) -> (r: Result<(), RuntimeError>)
        ensures
            r is Ok,
            *final(reader) == *old(reader),
            *final(self) == *old(self),
    {
        Ok(())
    }

    pub fn execute(&mut self, frame: &mut Frame) -> (r: Result<(), RuntimeError>)
        requires
            old(frame).wf(),
        ensures
            *final(self) == *old(self),
            stepped(*old(frame), *final(frame), load_word(old(frame)@, 0), r),
    {
        fload(frame, 0)
    }
}

/// Load of a float from local variable 1.
#[allow(non_camel_case_types)]
#[derive(Clone, Copy, Debug, PartialEq, Eq, Structural)]
pub struct FLoad_1 {}

impl FLoad_1 {
    /// Reads nothing: the index is part of the opcode.
    pub fn fetch_operands(&mut self, reader: &mut ByteCodeReader) -> (r: Result<(), RuntimeError>)
        ensures
            r is Ok,
            *final(reader) == *old(reader),
            *final(self) == *old(self),
    {
        Ok(())
    }

    pub fn execute(&mut self, frame: &mut Frame) -> (r: Result<(), RuntimeError>)
        requires
            old(frame).wf(),
        ensures
            *final(self) == *old(self),
            stepped(*old(frame), *final(frame), load_word(old(frame)@, 1), r),
    {
        fload(frame, 1)
    }
}

/// Load of a float from local variable 2.
#[allow(non_camel_case_types)]
#[derive(Clone, Copy, Debug, PartialEq, Eq, Structural)]
pub struct FLoad_2 {}

impl FLoad_2 {
    /// Reads nothing: the index is part of the opcode.
    pub fn fetch_operands(&mut self, reader: &mut ByteCodeReader) -> (r: Result<(), RuntimeError>)
        ensures
            r is Ok,
            *final(reader) == *old(reader),
            *final(self) == *old(self),
    {
        Ok(())
    }

    pub fn execute(&mut self, frame: &mut Frame) -> (r: Result<(), RuntimeError>)
        requires
            old(frame).wf(),
        ensures
            *final(self) == *old(self),
            stepped(*old(frame), *final(frame), load_word(old(frame)@, 2), r),
    {
        fload(frame, 2)
    }
}

/// Load of a float from local variable 3.
#[allow(non_camel_case_types)]
#[derive(Clone, Copy, Debug, PartialEq, Eq, Structural)]
pub struct FLoad_3 {}

impl FLoad_3 {
    /// Reads nothing: the index is part of the opcode.
    pub fn fetch_operands(&mut self, reader: &mut ByteCodeReader) -> (r: Result<(), RuntimeError>)
        ensures
            r is Ok,
            *final(reader) == *old(reader),
            *final(self) == *old(self),
    {
        Ok(())
    }

    pub fn execute(&mut self, frame: &mut Frame) -> (r: Result<(), RuntimeError>)
        requires
            old(frame).wf(),
        ensures
            *final(self) == *old(self),
            stepped(*old(frame), *final(frame), load_word(old(frame)@, 3), r),
    {
        fload(frame, 3)
    }
}

/// Pushes local variable `index`, read as a double.
pub fn dload(frame: &mut Frame, index: u8) -> (r: Result<(), RuntimeError>)
    requires
        old(frame).wf(),
    ensures
        stepped(*old(frame), *final(frame), load_long(old(frame)@, index as int), r),
{
    let val = frame.local_vars.get_f64(index as usize)?;
    proof {
        lemma_patterns(0, 0, 0, 0);
    }
    frame.operand_stack.push_f64(val)
}

/// Load of a double from the local variable whose index follows the opcode.
#[derive(Clone, Copy, Debug, PartialEq, Eq, Structural)]
pub struct DLoad {
    pub index: u8,
}

impl DLoad {
    /// Reads the index of the local variable.
    pub fn fetch_operands(&mut self, reader: &mut ByteCodeReader) -> (r: Result<(), RuntimeError>)
        ensures
            match r {
                Ok(_) => final(reader).took(*old(reader), 1) && final(self).index == old(
                    reader,
                ).code()[old(reader).pc as int],
                Err(e) => final(reader).ran_out(*old(reader), e, 1) && *final(self) == *old(self),
            },
    {
        self.index = reader.read_u8()?;
        Ok(())
    }

    pub fn execute(&mut self, frame: &mut Frame) -> (r: Result<(), RuntimeError>)
        requires
            old(frame).wf(),
        ensures
            *final(self) == *old(self),
            stepped(*old(frame), *final(frame), load_long(old(frame)@, old(self).index as int), r),
    {
        dload(frame, self.index)
    }
}

/// Load of a double from local variable 0.
#[allow(non_camel_case_types)]
#[derive(Clone, Copy, Debug, PartialEq, Eq, Structural)]
pub struct DLoad_0 {}

impl DLoad_0 {
    /// Reads nothing: the index is part of the opcode.
    pub fn fetch_operands(&mut self, reader: &mut ByteCodeReader) -> (r: Result<(), RuntimeError>)
        ensures
            r is Ok,
            *final(reader) == *old(reader),
            *final(self) == *old(self),
    {
        Ok(())
    }

    pub fn execute(&mut self, frame: &mut Frame) -> (r: Result<(), RuntimeError>)
        requires
            old(frame).wf(),
        ensures
            *final(self) == *old(self),
            stepped(*old(frame), *final(frame), load_long(old(frame)@, 0), r),
    {
        dload(frame, 0)
    }
}

/// Load of a double from local variable 1.
#[allow(non_camel_case_types)]
#[derive(Clone, Copy, Debug, PartialEq, Eq, Structural)]
pub struct DLoad_1 {}

impl DLoad_1 {
    /// Reads nothing: the index is part of the opcode.
    pub fn fetch_operands(&mut self, reader: &mut ByteCodeReader) -> (r: Result<(), RuntimeError>)
        ensures
            r is Ok,
            *final(reader) == *old(reader),
            *final(self) == *old(self),
    {
        Ok(())
    }

    pub fn execute(&mut self, frame: &mut Frame) -> (r: Result<(), RuntimeError>)
        requires
            old(frame).wf(),
        ensures
            *final(self) == *old(self),
            stepped(*old(frame), *final(frame), load_long(old(frame)@, 1), r),
    {
        dload(frame, 1)
    }
}

/// Load of a double from local variable 2.
#[allow(non_camel_case_types)]
#[derive(Clone, Copy, Debug, PartialEq, Eq, Structural)]
pub struct DLoad_2 {}

impl DLoad_2 {
    /// Reads nothing: the index is part of the opcode.
    pub fn fetch_operands(&mut self, reader: &mut ByteCodeReader) -> (r: Result<(), RuntimeError>)
        ensures
            r is Ok,
            *final(reader) == *old(reader),
            *final(self) == *old(self),
    {
        Ok(())
    }

    pub fn execute(&mut self, frame: &mut Frame) -> (r: Result<(), RuntimeError>)
        requires
            old(frame).wf(),
        ensures
            *final(self) == *old(self),
            stepped(*old(frame), *final(frame), load_long(old(frame)@, 2), r),
    {
        dload(frame, 2)
    }
}

/// Load of a double from local variable 3.
#[allow(non_camel_case_types)]
#[derive(Clone, Copy, Debug, PartialEq, Eq, Structural)]
pub struct DLoad_3 {}

impl DLoad_3 {
    /// Reads nothing: the index is part of the opcode.
    pub fn fetch_operands(&mut self, reader: &mut ByteCodeReader) -> (r: Result<(), RuntimeError>)
        ensures
            r is Ok,
            *final(reader) == *old(reader),
            *final(self) == *old(self),
    {
        Ok(())
    }

    pub fn execute(&mut self, frame: &mut Frame) -> (r: Result<(), RuntimeError>)
        requires
            old(frame).wf(),
        ensures
            *final(self) == *old(self),
            stepped(*old(frame), *final(frame), load_long(old(frame)@, 3), r),
    {
        dload(frame, 3)
    }
}

/// Pushes local variable `index`, read as a reference.
pub fn aload(frame: &mut Frame, index: u8) -> (r: Result<(), RuntimeError>)
    requires
        old(frame).wf(),
    ensures
        stepped(*old(frame), *final(frame), load_ref(old(frame)@, index as int), r),
{
    let val = frame.local_vars.get_obj(index as usize)?;
    proof {
        lemma_patterns(0, 0, 0, 0);
    }
    frame.operand_stack.push_obj(val)
}

/// Load of a reference from the local variable whose index follows the opcode.
#[derive(Clone, Copy, Debug, PartialEq, Eq, Structural)]
pub struct ALoad {
    pub index: u8,
}

impl ALoad {
    /// Reads the index of the local variable.
    pub fn fetch_operands(&mut self, reader: &mut ByteCodeReader) -> (r: Result<(), RuntimeError>)
        ensures
            match r {
                Ok(_) => final(reader).took(*old(reader), 1) && final(self).index == old(
                    reader,
                ).code()[old(reader).pc as int],
                Err(e) => final(reader).ran_out(*old(reader), e, 1) && *final(self) == *old(self),
            },
    {
        self.index = reader.read_u8()?;
        Ok(())
    }

    pub fn execute(&mut self, frame: &mut Frame) -> (r: Result<(), RuntimeError>)
        requires
            old(frame).wf(),
        ensures
            *final(self) == *old(self),
            stepped(*old(frame), *final(frame), load_ref(old(frame)@, old(self).index as int), r),
    {
        aload(frame, self.index)
    }
}

/// Load of a reference from local variable 0.
#[allow(non_camel_case_types)]
#[derive(Clone, Copy, Debug, PartialEq, Eq, Structural)]
pub struct ALoad_0 {}

impl ALoad_0 {
    /// Reads nothing: the index is part of the opcode.
    pub fn fetch_operands(&mut self, reader: &mut ByteCodeReader) -> (r: Result<(), RuntimeError>)
        ensures
            r is Ok,
            *final(reader) == *old(reader),
            *final(self) == *old(self),
    {
        Ok(())
    }

    pub fn execute(&mut self, frame: &mut Frame) -> (r: Result<(), RuntimeError>)
        requires
            old(frame).wf(),
        ensures
            *final(self) == *old(self),
            stepped(*old(frame), *final(frame), load_ref(old(frame)@, 0), r),
    {
        aload(frame, 0)
    }
}

/// Load of a reference from local variable 1.
#[allow(non_camel_case_types)]
#[derive(Clone, Copy, Debug, PartialEq, Eq, Structural)]
pub struct ALoad_1 {}

impl ALoad_1 {
    /// Reads nothing: the index is part of the opcode.
    pub fn fetch_operands(&mut self, reader: &mut ByteCodeReader) -> (r: Result<(), RuntimeError>)
        ensures
            r is Ok,
            *final(reader) == *old(reader),
            *final(self) == *old(self),
    {
        Ok(())
    }

    pub fn execute(&mut self, frame: &mut Frame) -> (r: Result<(), RuntimeError>)
        requires
            old(frame).wf(),
        ensures
            *final(self) == *old(self),
            stepped(*old(frame), *final(frame), load_ref(old(frame)@, 1), r),
    {
        aload(frame, 1)
    }
}

/// Load of a reference from local variable 2.
#[allow(non_camel_case_types)]
#[derive(Clone, Copy, Debug, PartialEq, Eq, Structural)]
pub struct ALoad_2 {}

impl ALoad_2 {
    /// Reads nothing: the index is part of the opcode.
    pub fn fetch_operands(&mut self, reader: &mut ByteCodeReader) -> (r: Result<(), RuntimeError>)
        ensures
            r is Ok,
            *final(reader) == *old(reader),
            *final(self) == *old(self),
    {
        Ok(())
    }

    pub fn execute(&mut self, frame: &mut Frame) -> (r: Result<(), RuntimeError>)
        requires
            old(frame).wf(),
        ensures
            *final(self) == *old(self),
            stepped(*old(frame), *final(frame), load_ref(old(frame)@, 2), r),
    {
        aload(frame, 2)
    }
}

/// Load of a reference from local variable 3.
#[allow(non_camel_case_types)]
#[derive(Clone, Copy, Debug, PartialEq, Eq, Structural)]
pub struct ALoad_3 {}

impl ALoad_3 {
    /// Reads nothing: the index is part of the opcode.
    pub fn fetch_operands(&mut self, reader: &mut ByteCodeReader) -> (r: Result<(), RuntimeError>)
        ensures
            r is Ok,
            *final(reader) == *old(reader),
            *final(self) == *old(self),
    {
        Ok(())
    }

    pub fn execute(&mut self, frame: &mut Frame) -> (r: Result<(), RuntimeError>)
        requires
            old(frame).wf(),
        ensures
            *final(self) == *old(self),
            stepped(*old(frame), *final(frame), load_ref(old(frame)@, 3), r),
    {
        aload(frame, 3)
    }
}

} // verus!
