use classvm::class::simple_loader::attribute_info::CodeAttribute;
use classvm::env::basic_env_elements::{Frame, Object, Slot};
use classvm::env::byte_code_reader::ByteCodeReader;
use classvm::env::inst::Instruction;
use classvm::env::insts::loads::{
    aload, dload, fload, iload, lload, ALoad, ALoad_0, ALoad_2, DLoad, DLoad_1, FLoad, FLoad_3,
    ILoad, ILoad_0, ILoad_1, ILoad_2, ILoad_3, LLoad, LLoad_0, LLoad_2,
};
use classvm::env::interpreter::{new_frame, run, step};
use classvm::error::RuntimeError;

fn code(max_stack: u16, max_locals: u16, bytes: &[u8]) -> CodeAttribute {
    CodeAttribute {
        max_stack,
        max_locals,
        code: bytes.to_vec(),
        exception_table: vec![],
        attributes: vec![],
    }
}

#[test]
fn bytecode_reader_reads_big_endian_operands() {
    let mut reader = ByteCodeReader::new(vec![0x01, 0xFF, 0x12, 0x34, 0xFF, 0xFE, 0x80, 0x00, 0x00, 0x01]);
    assert_eq!(reader.len(), 10);
    assert_eq!(reader.read_u8(), Ok(1));
    assert_eq!(reader.read_i8(), Ok(-1));
    assert_eq!(reader.read_u16(), Ok(0x1234));
    assert_eq!(reader.read_i16(), Ok(-2));
    assert_eq!(reader.read_i32(), Ok(i32::MIN + 1));
    assert_eq!(reader.pc, 10);
    assert_eq!(reader.read_u8(), Err(RuntimeError::TruncatedCode));
    assert_eq!(reader.read_i8(), Err(RuntimeError::TruncatedCode));
    assert_eq!(reader.pc, 10);
}

#[test]
fn bytecode_reader_fails_without_moving() {
    let mut reader = ByteCodeReader::new(vec![1, 2, 3]);
    assert_eq!(reader.read_i32(), Err(RuntimeError::TruncatedCode));
    assert_eq!(reader.read_i32s(1), Err(RuntimeError::TruncatedCode));
    assert_eq!(reader.read_i32s(usize::MAX), Err(RuntimeError::TruncatedCode));
    assert_eq!(reader.pc, 0);
    reader.pc = 2;
    assert_eq!(reader.read_u16(), Err(RuntimeError::TruncatedCode));
    assert_eq!(reader.read_i16(), Err(RuntimeError::TruncatedCode));
    assert_eq!(reader.pc, 2);
    reader.pc = 7;
    assert_eq!(reader.read_u8(), Err(RuntimeError::TruncatedCode));
    assert_eq!(reader.read_i32s(0), Err(RuntimeError::TruncatedCode));
    assert_eq!(reader.pc, 7);
}

#[test]
fn bytecode_reader_reads_runs_and_skips_padding() {
    let mut reader = ByteCodeReader::new(vec![9, 0, 0, 0, 0, 0, 0, 1, 0xFF, 0xFF, 0xFF, 0xFF, 7]);
    assert_eq!(reader.skip_padding(), Ok(()));
    assert_eq!(reader.pc, 0);
    assert_eq!(reader.read_u8(), Ok(9));
    assert_eq!(reader.skip_padding(), Ok(()));
    assert_eq!(reader.pc, 4);
    assert_eq!(reader.read_i32s(2), Ok(vec![1, -1]));
    assert_eq!(reader.pc, 12);
    assert_eq!(reader.read_i32s(0), Ok(vec![]));
    assert_eq!(reader.read_u8(), Ok(7));
    assert_eq!(reader.skip_padding(), Err(RuntimeError::TruncatedCode));
    assert_eq!(reader.pc, 13);
    reader.reset(vec![1, 2, 3, 4, 5], 2);
    assert_eq!(reader.skip_padding(), Ok(()));
    assert_eq!(reader.pc, 4);
    assert_eq!(reader.read_u8(), Ok(5));
    reader.reset(vec![1, 2, 3], 1);
    assert_eq!(reader.skip_padding(), Err(RuntimeError::TruncatedCode));
    assert_eq!(reader.pc, 1);
    reader.reset(vec![], 8);
    assert_eq!(reader.skip_padding(), Ok(()));
    assert_eq!(reader.pc, 8);
}

#[test]
fn implicit_int_load_pushes_local_zero() {
    let mut frame = Frame::new(1, 2);
    frame.local_vars.set_i32(0, 42).unwrap();
    let mut reader = ByteCodeReader::new(vec![0x1A]);
    let opcode = reader.read_u8().unwrap();
    let mut inst = Instruction::for_opcode(opcode).unwrap();
    assert_eq!(inst, Instruction::ILoad_0(ILoad_0 {}));
    assert_eq!(inst.fetch_operands(&mut reader), Ok(()));
    assert_eq!(reader.pc, 1);
    assert_eq!(inst.execute(&mut frame), Ok(()));
    assert_eq!(frame.operand_stack.depth(), 1);
    assert_eq!(frame.operand_stack.pop_i32(), Ok(42));
    assert_eq!(frame.local_vars.get_i32(0), Ok(42));
}

#[test]
fn explicit_load_reads_its_index() {
    let mut frame = Frame::new(6, 2);
    frame.local_vars.set_i32(5, -7).unwrap();
    let mut reader = ByteCodeReader::new(vec![0x15, 0x05]);
    assert_eq!(step(&mut reader, &mut frame), Ok(()));
    assert_eq!(reader.pc, 2);
    assert_eq!(frame.operand_stack.pop_i32(), Ok(-7));
    let mut load = ILoad { index: 0 };
    let mut operand = ByteCodeReader::new(vec![0x03]);
    assert_eq!(load.fetch_operands(&mut operand), Ok(()));
    assert_eq!(load, ILoad { index: 3 });
    assert_eq!(load.fetch_operands(&mut operand), Err(RuntimeError::TruncatedCode));
    assert_eq!(load, ILoad { index: 3 });
}

#[test]
fn every_opcode_selects_its_instruction() {
    let expected: [(u8, Instruction); 9] = [
        (0x15, Instruction::ILoad(ILoad { index: 0 })),
        (0x16, Instruction::LLoad(LLoad { index: 0 })),
        (0x17, Instruction::FLoad(FLoad { index: 0 })),
        (0x18, Instruction::DLoad(DLoad { index: 0 })),
        (0x19, Instruction::ALoad(ALoad { index: 0 })),
        (0x1B, Instruction::ILoad_1(ILoad_1 {})),
        (0x20, Instruction::LLoad_2(LLoad_2 {})),
        (0x25, Instruction::FLoad_3(FLoad_3 {})),
        (0x27, Instruction::DLoad_1(DLoad_1 {})),
    ];
    for (opcode, inst) in expected {
        assert_eq!(Instruction::for_opcode(opcode), Ok(inst));
    }
    assert_eq!(Instruction::for_opcode(0x2C), Ok(Instruction::ALoad_2(ALoad_2 {})));
    for opcode in 0x15u8..=0x2D {
        assert!(Instruction::for_opcode(opcode).is_ok());
    }
    for opcode in (0u8..0x15).chain(0x2E..=0xFF) {
        assert_eq!(Instruction::for_opcode(opcode), Err(RuntimeError::UnknownOpcode(opcode)));
    }
}

#[test]
fn loads_of_each_kind() {
    let mut frame = Frame::new(4, 8);
    frame.local_vars.set_i32(0, 1).unwrap();
    frame.local_vars.set_i64(1, -2).unwrap();
    frame.local_vars.set_obj(3, Object { handle: 9 }).unwrap();
    assert_eq!(iload(&mut frame, 0), Ok(()));
    assert_eq!(lload(&mut frame, 1), Ok(()));
    assert_eq!(aload(&mut frame, 3), Ok(()));
    assert_eq!(fload(&mut frame, 0), Ok(()));
    assert_eq!(dload(&mut frame, 1), Ok(()));
    assert_eq!(frame.operand_stack.depth(), 7);
    assert_eq!(frame.operand_stack.pop_f64(), Ok((-2i64) as u64));
    assert_eq!(frame.operand_stack.pop_f32(), Ok(1));
    assert_eq!(frame.operand_stack.pop_obj(), Ok(Object { handle: 9 }));
    assert_eq!(frame.operand_stack.pop_i64(), Ok(-2));
    assert_eq!(frame.operand_stack.pop_i32(), Ok(1));
    let mut short_forms = Frame::new(4, 8);
    short_forms.local_vars.set_i32(2, 22).unwrap();
    short_forms.local_vars.set_i32(3, 33).unwrap();
    short_forms.local_vars.set_obj(0, Object { handle: 4 }).unwrap();
    assert_eq!(ILoad_2 {}.execute(&mut short_forms), Ok(()));
    assert_eq!(ILoad_3 {}.execute(&mut short_forms), Ok(()));
    assert_eq!(LLoad_2 {}.execute(&mut short_forms), Ok(()));
    assert_eq!(ALoad_0 {}.execute(&mut short_forms), Ok(()));
    assert_eq!(FLoad_3 {}.execute(&mut short_forms), Ok(()));
    assert_eq!(short_forms.operand_stack.pop_i32(), Ok(33));
    assert_eq!(short_forms.operand_stack.pop_obj(), Ok(Object { handle: 4 }));
    assert_eq!(short_forms.operand_stack.pop_i64(), Ok(22 * 0x1_0000_0000 + 33));
    assert_eq!(short_forms.operand_stack.pop_i32(), Ok(33));
    assert_eq!(short_forms.operand_stack.pop_i32(), Ok(22));
}

#[test]
fn failed_load_leaves_the_frame() {
    let mut frame = Frame::new(2, 1);
    frame.local_vars.set_obj(1, Object { handle: 1 }).unwrap();
    assert_eq!(iload(&mut frame, 2), Err(RuntimeError::LocalIndexOutOfRange));
    assert_eq!(iload(&mut frame, 1), Err(RuntimeError::SlotKindMismatch));
    assert_eq!(fload(&mut frame, 1), Err(RuntimeError::SlotKindMismatch));
    assert_eq!(aload(&mut frame, 0), Err(RuntimeError::SlotKindMismatch));
    assert_eq!(lload(&mut frame, 0), Err(RuntimeError::SlotKindMismatch));
    assert_eq!(lload(&mut frame, 1), Err(RuntimeError::LocalIndexOutOfRange));
    assert_eq!(dload(&mut frame, 255), Err(RuntimeError::LocalIndexOutOfRange));
    frame.local_vars.set_i32(1, 0).unwrap();
    assert_eq!(lload(&mut frame, 0), Err(RuntimeError::StackOverflow));
    assert_eq!(frame.operand_stack.depth(), 0);
    assert_eq!(iload(&mut frame, 0), Ok(()));
    assert_eq!(iload(&mut frame, 0), Err(RuntimeError::StackOverflow));
    assert_eq!(ILoad_1 {}.execute(&mut frame), Err(RuntimeError::StackOverflow));
    assert_eq!(LLoad_0 {}.execute(&mut frame), Err(RuntimeError::StackOverflow));
    assert_eq!(frame.operand_stack.depth(), 1);
    assert_eq!(frame, {
        let mut same = Frame::new(2, 1);
        same.local_vars.set_i32(1, 0).unwrap();
        same.operand_stack.push_i32(0).unwrap();
        same
    });
}

#[test]
fn run_executes_to_the_end_of_the_code() {
    let method = code(5, 3, &[0x1A, 0x15, 0x02, 0x1E, 0x1B]);
    let locals = vec![Slot::Num(42), Slot::Num(-1), Slot::Num(7)];
    let mut result = run(&method, &locals).unwrap();
    assert_eq!(result.frame.operand_stack.depth(), 5);
    assert_eq!(result.frame.operand_stack.pop_i32(), Ok(-1));
    assert_eq!(result.frame.operand_stack.pop_i64(), Ok(42 * 0x1_0000_0000 + 0xFFFF_FFFF));
    assert_eq!(result.frame.operand_stack.pop_i32(), Ok(7));
    assert_eq!(result.frame.operand_stack.pop_i32(), Ok(42));
    assert_eq!(result.frame.local_vars.get_i32(0), Ok(42));
}

#[test]
fn run_of_empty_code_returns_the_first_frame() {
    let result = run(&code(2, 3, &[]), &vec![Slot::Ref(Object { handle: 5 })]).unwrap();
    assert_eq!(result.frame.local_vars.len(), 3);
    assert_eq!(result.frame.local_vars.get_obj(0), Ok(Object { handle: 5 }));
    assert_eq!(result.frame.local_vars.get_i32(1), Ok(0));
    assert_eq!(result.frame.local_vars.get_i32(2), Ok(0));
    assert_eq!(result.frame.operand_stack.depth(), 0);
    assert_eq!(result.frame.operand_stack.max_depth(), 2);
    assert_eq!(new_frame(&code(2, 3, &[]), &vec![Slot::Ref(Object { handle: 5 })]), Ok(result.frame));
}

#[test]
fn run_reports_the_first_failure() {
    let locals = vec![Slot::Num(1)];
    assert_eq!(run(&code(1, 1, &[0x1A, 0x1A]), &locals), Err(RuntimeError::StackOverflow));
    assert_eq!(run(&code(1, 1, &[0x00]), &locals), Err(RuntimeError::UnknownOpcode(0)));
    assert_eq!(run(&code(2, 1, &[0x1A, 0xCA]), &locals), Err(RuntimeError::UnknownOpcode(0xCA)));
    assert_eq!(run(&code(1, 1, &[0x15]), &locals), Err(RuntimeError::TruncatedCode));
    assert_eq!(run(&code(1, 1, &[0x1B]), &locals), Err(RuntimeError::LocalIndexOutOfRange));
    assert_eq!(run(&code(1, 1, &[0x2A]), &locals), Err(RuntimeError::SlotKindMismatch));
    assert_eq!(run(&code(2, 1, &[0x1E]), &locals), Err(RuntimeError::LocalIndexOutOfRange));
    assert_eq!(run(&code(1, 0, &[]), &locals), Err(RuntimeError::LocalIndexOutOfRange));
    assert_eq!(run(&code(0, 1, &[0x1A]), &locals), Err(RuntimeError::StackOverflow));
}

#[test]
fn step_leaves_the_frame_on_failure() {
    let mut frame = Frame::new(1, 1);
    let mut reader = ByteCodeReader::new(vec![0x1A, 0x1A, 0xFF]);
    assert_eq!(step(&mut reader, &mut frame), Ok(()));
    assert_eq!(step(&mut reader, &mut frame), Err(RuntimeError::StackOverflow));
    assert_eq!(frame.operand_stack.depth(), 1);
    assert_eq!(step(&mut reader, &mut frame), Err(RuntimeError::UnknownOpcode(0xFF)));
    assert_eq!(step(&mut reader, &mut frame), Err(RuntimeError::TruncatedCode));
    assert_eq!(frame.operand_stack.pop_i32(), Ok(0));
}
