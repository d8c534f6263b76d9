//! Instructions as one closed family, and the table that finds the
//! instruction for an opcode.
//!
//! An instruction is run in two steps: it reads its operands from the code,
//! and then it acts on a frame.

use crate::bits::fits;
use crate::env::basic_env_elements::{Frame, FrameModel};
use crate::env::byte_code_reader::ByteCodeReader;
use crate::env::insts::loads::{
    load_long, load_ref, load_word, stepped, ALoad, ALoad_0, ALoad_1, ALoad_2, ALoad_3, DLoad,
    DLoad_0, DLoad_1, DLoad_2, DLoad_3, FLoad, FLoad_0, FLoad_1, FLoad_2, FLoad_3, ILoad, ILoad_0,
    ILoad_1, ILoad_2, ILoad_3, LLoad, LLoad_0, LLoad_1, LLoad_2, LLoad_3,
};
use crate::error::RuntimeError;
use vstd::prelude::*;

verus! {

/// One instruction.
#[allow(non_camel_case_types)]
#[derive(Clone, Copy, Debug, PartialEq, Eq, Structural)]
pub enum Instruction {
    ILoad(ILoad),
    LLoad(LLoad),
    FLoad(FLoad),
    DLoad(DLoad),
    ALoad(ALoad),
    ILoad_0(ILoad_0),
    ILoad_1(ILoad_1),
    ILoad_2(ILoad_2),
    ILoad_3(ILoad_3),
    LLoad_0(LLoad_0),
    LLoad_1(LLoad_1),
    LLoad_2(LLoad_2),
    LLoad_3(LLoad_3),
    FLoad_0(FLoad_0),
    FLoad_1(FLoad_1),
    FLoad_2(FLoad_2),
    FLoad_3(FLoad_3),
    DLoad_0(DLoad_0),
    DLoad_1(DLoad_1),
    DLoad_2(DLoad_2),
    DLoad_3(DLoad_3),
    ALoad_0(ALoad_0),
    ALoad_1(ALoad_1),
    ALoad_2(ALoad_2),
    ALoad_3(ALoad_3),
}

impl Instruction {
    /// Number of operand bytes that follow the opcode.
    pub open spec fn operand_len(self) -> int {
        match self {
            Instruction::ILoad(_) => 1,
            Instruction::LLoad(_) => 1,
            Instruction::FLoad(_) => 1,
            Instruction::DLoad(_) => 1,
            Instruction::ALoad(_) => 1,
            _ => 0,
        }
    }

    /// This instruction with the operands that start at `pos` in `code`.
    pub open spec fn with_operands(self, code: Seq<u8>, pos: int) -> Instruction {
        match self {
            Instruction::ILoad(_) => Instruction::ILoad(ILoad { index: code[pos] }),
            Instruction::LLoad(_) => Instruction::LLoad(LLoad { index: code[pos] }),
            Instruction::FLoad(_) => Instruction::FLoad(FLoad { index: code[pos] }),
            Instruction::DLoad(_) => Instruction::DLoad(DLoad { index: code[pos] }),
            Instruction::ALoad(_) => Instruction::ALoad(ALoad { index: code[pos] }),
            _ => self,
        }
    }

    /// The frame `f` after this instruction.
    pub open spec fn effect(self, f: FrameModel) -> Result<FrameModel, RuntimeError> {
        match self {
            Instruction::ILoad(load) => load_word(f, load.index as int),
            Instruction::LLoad(load) => load_long(f, load.index as int),
            Instruction::FLoad(load) => load_word(f, load.index as int),
            Instruction::DLoad(load) => load_long(f, load.index as int),
            Instruction::ALoad(load) => load_ref(f, load.index as int),
            Instruction::ILoad_0(_) => load_word(f, 0),
            Instruction::ILoad_1(_) => load_word(f, 1),
            Instruction::ILoad_2(_) => load_word(f, 2),
            Instruction::ILoad_3(_) => load_word(f, 3),
            Instruction::LLoad_0(_) => load_long(f, 0),
            Instruction::LLoad_1(_) => load_long(f, 1),
            Instruction::LLoad_2(_) => load_long(f, 2),
            Instruction::LLoad_3(_) => load_long(f, 3),
            Instruction::FLoad_0(_) => load_word(f, 0),
            Instruction::FLoad_1(_) => load_word(f, 1),
            Instruction::FLoad_2(_) => load_word(f, 2),
            Instruction::FLoad_3(_) => load_word(f, 3),
            Instruction::DLoad_0(_) => load_long(f, 0),
            Instruction::DLoad_1(_) => load_long(f, 1),
            Instruction::DLoad_2(_) => load_long(f, 2),
            Instruction::DLoad_3(_) => load_long(f, 3),
            Instruction::ALoad_0(_) => load_ref(f, 0),
            Instruction::ALoad_1(_) => load_ref(f, 1),
            Instruction::ALoad_2(_) => load_ref(f, 2),
            Instruction::ALoad_3(_) => load_ref(f, 3),
        }
    }

    /// The instruction for `opcode`, before its operands are read.
    pub fn for_opcode(opcode: u8) -> (r: Result<Instruction, RuntimeError>)
        ensures
            r == instruction_for(opcode),
    {
        match opcode {
            0x15 => Ok(Instruction::ILoad(ILoad { index: 0 })),
            0x16 => Ok(Instruction::LLoad(LLoad { index: 0 })),
            0x17 => Ok(Instruction::FLoad(FLoad { index: 0 })),
            0x18 => Ok(Instruction::DLoad(DLoad { index: 0 })),
            0x19 => Ok(Instruction::ALoad(ALoad { index: 0 })),
            0x1a => Ok(Instruction::ILoad_0(ILoad_0 {  })),
            0x1b => Ok(Instruction::ILoad_1(ILoad_1 {  })),
            0x1c => Ok(Instruction::ILoad_2(ILoad_2 {  })),
            0x1d => Ok(Instruction::ILoad_3(ILoad_3 {  })),
            0x1e => Ok(Instruction::LLoad_0(LLoad_0 {  })),
            0x1f => Ok(Instruction::LLoad_1(LLoad_1 {  })),
            0x20 => Ok(Instruction::LLoad_2(LLoad_2 {  })),
            0x21 => Ok(Instruction::LLoad_3(LLoad_3 {  })),
            0x22 => Ok(Instruction::FLoad_0(FLoad_0 {  })),
            0x23 => Ok(Instruction::FLoad_1(FLoad_1 {  })),
            0x24 => Ok(Instruction::FLoad_2(FLoad_2 {  })),
            0x25 => Ok(Instruction::FLoad_3(FLoad_3 {  })),
            0x26 => Ok(Instruction::DLoad_0(DLoad_0 {  })),
            0x27 => Ok(Instruction::DLoad_1(DLoad_1 {  })),
            0x28 => Ok(Instruction::DLoad_2(DLoad_2 {  })),
            0x29 => Ok(Instruction::DLoad_3(DLoad_3 {  })),
            0x2a => Ok(Instruction::ALoad_0(ALoad_0 {  })),
            0x2b => Ok(Instruction::ALoad_1(ALoad_1 {  })),
            0x2c => Ok(Instruction::ALoad_2(ALoad_2 {  })),
            0x2d => Ok(Instruction::ALoad_3(ALoad_3 {  })),
            _ => Err(RuntimeError::UnknownOpcode(opcode)),
        }
    }

    /// Reads the operands of this instruction from the code.
    pub fn fetch_operands(&mut self, reader: &mut ByteCodeReader) -> (r: Result<(), RuntimeError>)
        ensures
            match r {
                Ok(_) => {
                    &&& old(self).operand_len() == 0 || fits(
                        old(reader).code(),
                        old(reader).pc as int,
                        old(self).operand_len(),
                    )
                    &&& final(reader).code() == old(reader).code()
                    &&& final(reader).pc == old(reader).pc + old(self).operand_len()
                    &&& *final(self) == old(self).with_operands(
                        old(reader).code(),
                        old(reader).pc as int,
                    )
                },
                Err(e) => {
                    &&& old(self).operand_len() != 0
                    &&& final(reader).ran_out(*old(reader), e, old(self).operand_len())
                    &&& *final(self) == *old(self)
                },
            },
    {
        match self {
            Instruction::ILoad(inst) => inst.fetch_operands(reader),
            Instruction::LLoad(inst) => inst.fetch_operands(reader),
            Instruction::FLoad(inst) => inst.fetch_operands(reader),
            Instruction::DLoad(inst) => inst.fetch_operands(reader),
            Instruction::ALoad(inst) => inst.fetch_operands(reader),
            Instruction::ILoad_0(inst) => inst.fetch_operands(reader),
            Instruction::ILoad_1(inst) => inst.fetch_operands(reader),
            Instruction::ILoad_2(inst) => inst.fetch_operands(reader),
            Instruction::ILoad_3(inst) => inst.fetch_operands(reader),
            Instruction::LLoad_0(inst) => inst.fetch_operands(reader),
            Instruction::LLoad_1(inst) => inst.fetch_operands(reader),
            Instruction::LLoad_2(inst) => inst.fetch_operands(reader),
            Instruction::LLoad_3(inst) => inst.fetch_operands(reader),
            Instruction::FLoad_0(inst) => inst.fetch_operands(reader),
            Instruction::FLoad_1(inst) => inst.fetch_operands(reader),
            Instruction::FLoad_2(inst) => inst.fetch_operands(reader),
            Instruction::FLoad_3(inst) => inst.fetch_operands(reader),
            Instruction::DLoad_0(inst) => inst.fetch_operands(reader),
            Instruction::DLoad_1(inst) => inst.fetch_operands(reader),
            Instruction::DLoad_2(inst) => inst.fetch_operands(reader),
            Instruction::DLoad_3(inst) => inst.fetch_operands(reader),
            Instruction::ALoad_0(inst) => inst.fetch_operands(reader),
            Instruction::ALoad_1(inst) => inst.fetch_operands(reader),
            Instruction::ALoad_2(inst) => inst.fetch_operands(reader),
            Instruction::ALoad_3(inst) => inst.fetch_operands(reader),
        }
    }

    /// Lets this instruction act on `frame`.
    pub fn execute(&mut self, frame: &mut Frame) -> (r: Result<(), RuntimeError>)
        requires
            old(frame).wf(),
        ensures
            *final(self) == *old(self),
            stepped(*old(frame), *final(frame), old(self).effect(old(frame)@), r),
    {
        match self {
            Instruction::ILoad(inst) => inst.execute(frame),
            Instruction::LLoad(inst) => inst.execute(frame),
            Instruction::FLoad(inst) => inst.execute(frame),
            Instruction::DLoad(inst) => inst.execute(frame),
            Instruction::ALoad(inst) => inst.execute(frame),
            Instruction::ILoad_0(inst) => inst.execute(frame),
            Instruction::ILoad_1(inst) => inst.execute(frame),
            Instruction::ILoad_2(inst) => inst.execute(frame),
            Instruction::ILoad_3(inst) => inst.execute(frame),
            Instruction::LLoad_0(inst) => inst.execute(frame),
            Instruction::LLoad_1(inst) => inst.execute(frame),
            Instruction::LLoad_2(inst) => inst.execute(frame),
            Instruction::LLoad_3(inst) => inst.execute(frame),
            Instruction::FLoad_0(inst) => inst.execute(frame),
            Instruction::FLoad_1(inst) => inst.execute(frame),
            Instruction::FLoad_2(inst) => inst.execute(frame),
            Instruction::FLoad_3(inst) => inst.execute(frame),
            Instruction::DLoad_0(inst) => inst.execute(frame),
            Instruction::DLoad_1(inst) => inst.execute(frame),
            Instruction::DLoad_2(inst) => inst.execute(frame),
            Instruction::DLoad_3(inst) => inst.execute(frame),
            Instruction::ALoad_0(inst) => inst.execute(frame),
            Instruction::ALoad_1(inst) => inst.execute(frame),
            Instruction::ALoad_2(inst) => inst.execute(frame),
            Instruction::ALoad_3(inst) => inst.execute(frame),
        }
    }
}

/// The instruction that `opcode` selects, with operands still blank.
pub open spec fn instruction_for(opcode: u8) -> Result<Instruction, RuntimeError> {
    if opcode == 0x15 {
        Ok(Instruction::ILoad(ILoad { index: 0 }))
    } else if opcode == 0x16 {
        Ok(Instruction::LLoad(LLoad { index: 0 }))
    } else if opcode == 0x17 {
        Ok(Instruction::FLoad(FLoad { index: 0 }))
    } else if opcode == 0x18 {
        Ok(Instruction::DLoad(DLoad { index: 0 }))
    } else if opcode == 0x19 {
        Ok(Instruction::ALoad(ALoad { index: 0 }))
    } else if opcode == 0x1a {
        Ok(Instruction::ILoad_0(ILoad_0 {  }))
    } else if opcode == 0x1b {
        Ok(Instruction::ILoad_1(ILoad_1 {  }))
    } else if opcode == 0x1c {
        Ok(Instruction::ILoad_2(ILoad_2 {  }))
    } else if opcode == 0x1d {
        Ok(Instruction::ILoad_3(ILoad_3 {  }))
    } else if opcode == 0x1e {
        Ok(Instruction::LLoad_0(LLoad_0 {  }))
    } else if opcode == 0x1f {
        Ok(Instruction::LLoad_1(LLoad_1 {  }))
    } else if opcode == 0x20 {
        Ok(Instruction::LLoad_2(LLoad_2 {  }))
    } else if opcode == 0x21 {
        Ok(Instruction::LLoad_3(LLoad_3 {  }))
    } else if opcode == 0x22 {
        Ok(Instruction::FLoad_0(FLoad_0 {  }))
    } else if opcode == 0x23 {
        Ok(Instruction::FLoad_1(FLoad_1 {  }))
    } else if opcode == 0x24 {
        Ok(Instruction::FLoad_2(FLoad_2 {  }))
    } else if opcode == 0x25 {
        Ok(Instruction::FLoad_3(FLoad_3 {  }))
    } else if opcode == 0x26 {
        Ok(Instruction::DLoad_0(DLoad_0 {  }))
    } else if opcode == 0x27 {
        Ok(Instruction::DLoad_1(DLoad_1 {  }))
    } else if opcode == 0x28 {
        Ok(Instruction::DLoad_2(DLoad_2 {  }))
    } else if opcode == 0x29 {
        Ok(Instruction::DLoad_3(DLoad_3 {  }))
    } else if opcode == 0x2a {
        Ok(Instruction::ALoad_0(ALoad_0 {  }))
    } else if opcode == 0x2b {
        Ok(Instruction::ALoad_1(ALoad_1 {  }))
    } else if opcode == 0x2c {
        Ok(Instruction::ALoad_2(ALoad_2 {  }))
    } else if opcode == 0x2d {
        Ok(Instruction::ALoad_3(ALoad_3 {  }))
    } else {
        Err(RuntimeError::UnknownOpcode(opcode))
    }
}

} // verus!
