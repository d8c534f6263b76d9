use classvm::bits::{join_i64, split_i64, to_i16, to_i32, to_i64, to_i8, to_u32, to_u64};
use classvm::env::basic_env_elements::{Frame, LocalVars, Object, OperandStack, Slot, Stack, Thread};
use classvm::error::RuntimeError;

#[test]
fn fresh_locals_hold_zero() {
    let locals = LocalVars::new(3);
    assert_eq!(locals.len(), 3);
    for n in 0..3 {
        assert_eq!(locals.get_i32(n), Ok(0));
        assert_eq!(locals.get_slot(n), Ok(Slot::Num(0)));
    }
    assert_eq!(locals.get_i64(0), Ok(0));
    assert_eq!(locals.get_i32(3), Err(RuntimeError::LocalIndexOutOfRange));
    assert_eq!(LocalVars::new(0).len(), 0);
}

#[test]
fn int_written_reads_back() {
    let mut locals = LocalVars::new(2);
    assert_eq!(locals.set_i32(0, 42), Ok(()));
    assert_eq!(locals.set_i32(1, i32::MIN), Ok(()));
    assert_eq!(locals.get_i32(0), Ok(42));
    assert_eq!(locals.get_i32(1), Ok(i32::MIN));
    assert_eq!(locals.set_i32(2, 1), Err(RuntimeError::LocalIndexOutOfRange));
    assert_eq!(locals.set_i32(usize::MAX, 1), Err(RuntimeError::LocalIndexOutOfRange));
    assert_eq!(locals.get_i32(usize::MAX), Err(RuntimeError::LocalIndexOutOfRange));
}

#[test]
fn long_written_reads_back_and_splits_into_halves() {
    let values: [i64; 9] = [
        0,
        1,
        -1,
        i64::MAX,
        i64::MIN,
        0x1234_5678_9ABC_DEF0,
        -0x1234_5678_9ABC_DEF0,
        0x0000_0001_8000_0000,
        0x7FFF_FFFF_FFFF_FFFF - 0xFFFF_FFFF,
    ];
    for v in values {
        let mut locals = LocalVars::new(4);
        assert_eq!(locals.set_i64(1, v), Ok(()));
        assert_eq!(locals.get_i64(1), Ok(v));
        let bytes = v.to_be_bytes();
        let high = i32::from_be_bytes([bytes[0], bytes[1], bytes[2], bytes[3]]);
        let low = i32::from_be_bytes([bytes[4], bytes[5], bytes[6], bytes[7]]);
        assert_eq!(locals.get_i32(1), Ok(high));
        assert_eq!(locals.get_i32(2), Ok(low));
        assert_eq!(locals.get_i32(0), Ok(0));
        assert_eq!(locals.get_i32(3), Ok(0));
        assert_eq!(split_i64(v), (high, low));
        assert_eq!(join_i64(high, low), v);
    }
}

#[test]
fn long_halves_have_exact_values() {
    let mut locals = LocalVars::new(2);
    locals.set_i64(0, 0x0000_0001_FFFF_FFFE).unwrap();
    assert_eq!(locals.get_i32(0), Ok(1));
    assert_eq!(locals.get_i32(1), Ok(-2));
    locals.set_i32(0, -1).unwrap();
    locals.set_i32(1, 0).unwrap();
    assert_eq!(locals.get_i64(0), Ok(-0x1_0000_0000));
}

#[test]
fn long_needs_two_slots() {
    let mut locals = LocalVars::new(2);
    assert_eq!(locals.set_i64(1, 5), Err(RuntimeError::LocalIndexOutOfRange));
    assert_eq!(locals.get_i32(1), Ok(0));
    assert_eq!(locals.set_i64(2, 5), Err(RuntimeError::LocalIndexOutOfRange));
    assert_eq!(locals.set_i64(usize::MAX, 5), Err(RuntimeError::LocalIndexOutOfRange));
    assert_eq!(locals.get_i64(1), Err(RuntimeError::LocalIndexOutOfRange));
    assert_eq!(locals.get_i64(usize::MAX), Err(RuntimeError::LocalIndexOutOfRange));
    assert_eq!(locals.set_f64(1, 5), Err(RuntimeError::LocalIndexOutOfRange));
    assert_eq!(locals.get_f64(1), Err(RuntimeError::LocalIndexOutOfRange));
}

#[test]
fn floats_keep_their_bit_patterns() {
    let mut locals = LocalVars::new(3);
    for v in [0.0f32, -0.0, 1.5, f32::MAX, f32::MIN_POSITIVE, f32::NEG_INFINITY, f32::NAN] {
        locals.set_f32(0, v.to_bits()).unwrap();
        assert_eq!(locals.get_f32(0), Ok(v.to_bits()));
    }
    locals.set_f32(0, 0xFFFF_FFFF).unwrap();
    assert_eq!(locals.get_i32(0), Ok(-1));
    for v in [0.0f64, -0.0, 2.5, f64::MAX, f64::EPSILON, f64::INFINITY, f64::NAN] {
        locals.set_f64(1, v.to_bits()).unwrap();
        assert_eq!(locals.get_f64(1), Ok(v.to_bits()));
        assert_eq!(f64::from_bits(locals.get_f64(1).unwrap()).to_bits(), v.to_bits());
    }
    locals.set_f64(1, 0x8000_0000_0000_0001).unwrap();
    assert_eq!(locals.get_i64(1), Ok(i64::MIN + 1));
    assert_eq!(locals.set_f32(3, 0), Err(RuntimeError::LocalIndexOutOfRange));
    assert_eq!(locals.get_f32(3), Err(RuntimeError::LocalIndexOutOfRange));
}

#[test]
fn reference_and_number_exclude_each_other() {
    let mut locals = LocalVars::new(2);
    let object = Object { handle: 7 };
    assert_eq!(locals.get_obj(0), Err(RuntimeError::SlotKindMismatch));
    assert_eq!(locals.set_obj(0, object), Ok(()));
    assert_eq!(locals.get_obj(0), Ok(object));
    assert_eq!(locals.get_slot(0), Ok(Slot::Ref(object)));
    assert_eq!(locals.get_i32(0), Err(RuntimeError::SlotKindMismatch));
    assert_eq!(locals.get_f32(0), Err(RuntimeError::SlotKindMismatch));
    assert_eq!(locals.get_i64(0), Err(RuntimeError::SlotKindMismatch));
    locals.set_obj(1, object).unwrap();
    locals.set_i32(0, 3).unwrap();
    assert_eq!(locals.get_i64(0), Err(RuntimeError::SlotKindMismatch));
    assert_eq!(locals.get_f64(0), Err(RuntimeError::SlotKindMismatch));
    assert_eq!(locals.get_obj(0), Err(RuntimeError::SlotKindMismatch));
    assert_eq!(locals.set_obj(2, object), Err(RuntimeError::LocalIndexOutOfRange));
    assert_eq!(locals.get_obj(2), Err(RuntimeError::LocalIndexOutOfRange));
    assert_eq!(locals.set_slot(2, Slot::Num(1)), Err(RuntimeError::LocalIndexOutOfRange));
    assert_eq!(locals.get_slot(2), Err(RuntimeError::LocalIndexOutOfRange));
}

#[test]
fn push_then_pop_returns_value_and_depth() {
    let mut stack = OperandStack::new(4);
    stack.push_i32(9).unwrap();
    let before = stack.depth();
    assert_eq!(stack.push_i32(-5), Ok(()));
    assert_eq!(stack.depth(), before + 1);
    assert_eq!(stack.pop_i32(), Ok(-5));
    assert_eq!(stack.depth(), before);
    assert_eq!(stack.push_i64(i64::MIN + 3), Ok(()));
    assert_eq!(stack.depth(), before + 2);
    assert_eq!(stack.pop_i64(), Ok(i64::MIN + 3));
    assert_eq!(stack.depth(), before);
    assert_eq!(stack.push_obj(Object { handle: 1 }), Ok(()));
    assert_eq!(stack.depth(), before + 1);
    assert_eq!(stack.pop_obj(), Ok(Object { handle: 1 }));
    assert_eq!(stack.depth(), before);
    assert_eq!(stack.push_f32(2.5f32.to_bits()), Ok(()));
    assert_eq!(stack.pop_f32(), Ok(2.5f32.to_bits()));
    assert_eq!(stack.push_f64((-2.5f64).to_bits()), Ok(()));
    assert_eq!(stack.pop_f64(), Ok((-2.5f64).to_bits()));
    assert_eq!(stack.depth(), before);
    assert_eq!(stack.pop_i32(), Ok(9));
    assert_eq!(stack.depth(), 0);
}

#[test]
fn stack_is_last_in_first_out() {
    let mut stack = OperandStack::new(5);
    stack.push_i32(1).unwrap();
    stack.push_i64(0x0000_0002_0000_0003).unwrap();
    stack.push_i32(4).unwrap();
    assert_eq!(stack.pop_i32(), Ok(4));
    assert_eq!(stack.pop_i32(), Ok(3));
    assert_eq!(stack.pop_i32(), Ok(2));
    assert_eq!(stack.pop_i32(), Ok(1));
    stack.push_i32(7).unwrap();
    stack.push_i32(-8).unwrap();
    assert_eq!(stack.pop_i64(), Ok(0x0000_0007_FFFF_FFF8));
}

#[test]
fn push_beyond_capacity_overflows() {
    let mut stack = OperandStack::new(2);
    assert_eq!(stack.max_depth(), 2);
    assert_eq!(stack.push_i32(1), Ok(()));
    assert_eq!(stack.push_i64(2), Err(RuntimeError::StackOverflow));
    assert_eq!(stack.push_f64(2), Err(RuntimeError::StackOverflow));
    assert_eq!(stack.depth(), 1);
    assert_eq!(stack.push_i32(2), Ok(()));
    assert_eq!(stack.push_i32(3), Err(RuntimeError::StackOverflow));
    assert_eq!(stack.push_f32(3), Err(RuntimeError::StackOverflow));
    assert_eq!(stack.push_obj(Object { handle: 3 }), Err(RuntimeError::StackOverflow));
    assert_eq!(stack.depth(), 2);
    assert_eq!(stack.max_depth(), 2);
    assert_eq!(stack.pop_i32(), Ok(2));
    assert_eq!(stack.pop_i32(), Ok(1));
    let mut none = OperandStack::new(0);
    assert_eq!(none.push_i32(1), Err(RuntimeError::StackOverflow));
    assert_eq!(none.push_i64(1), Err(RuntimeError::StackOverflow));
    assert_eq!(none.depth(), 0);
}

#[test]
fn pop_from_too_few_slots_underflows() {
    let mut stack = OperandStack::new(3);
    assert_eq!(stack.pop_i32(), Err(RuntimeError::StackUnderflow));
    assert_eq!(stack.pop_f32(), Err(RuntimeError::StackUnderflow));
    assert_eq!(stack.pop_obj(), Err(RuntimeError::StackUnderflow));
    assert_eq!(stack.pop_i64(), Err(RuntimeError::StackUnderflow));
    stack.push_i32(1).unwrap();
    assert_eq!(stack.pop_i64(), Err(RuntimeError::StackUnderflow));
    assert_eq!(stack.pop_f64(), Err(RuntimeError::StackUnderflow));
    assert_eq!(stack.depth(), 1);
    assert_eq!(stack.pop_i32(), Ok(1));
}

#[test]
fn pop_of_the_wrong_kind_leaves_the_stack() {
    let mut stack = OperandStack::new(3);
    stack.push_i32(1).unwrap();
    assert_eq!(stack.pop_obj(), Err(RuntimeError::SlotKindMismatch));
    stack.push_obj(Object { handle: 2 }).unwrap();
    assert_eq!(stack.pop_i32(), Err(RuntimeError::SlotKindMismatch));
    assert_eq!(stack.pop_i64(), Err(RuntimeError::SlotKindMismatch));
    assert_eq!(stack.depth(), 2);
    assert_eq!(stack.pop_obj(), Ok(Object { handle: 2 }));
    assert_eq!(stack.pop_i32(), Ok(1));
}

#[test]
fn stale_slots_above_the_top_are_overwritten() {
    let mut stack = OperandStack::new(2);
    stack.push_obj(Object { handle: 1 }).unwrap();
    stack.pop_obj().unwrap();
    stack.push_i64(-1).unwrap();
    assert_eq!(stack.pop_i64(), Ok(-1));
}

#[test]
fn call_stack_is_bounded() {
    let mut stack = Stack::new(2);
    assert_eq!(stack.depth(), 0);
    assert!(stack.get_current_frame().is_none());
    assert!(stack.pop().is_none());
    assert_eq!(stack.push(Frame::new(1, 1)), Ok(()));
    let mut second = Frame::new(2, 2);
    second.local_vars.set_i32(1, 11).unwrap();
    assert_eq!(stack.push(second), Ok(()));
    assert_eq!(stack.push(Frame::new(3, 3)), Err(RuntimeError::StackOverflow));
    assert_eq!(stack.depth(), 2);
    assert_eq!(stack.get_current_frame().unwrap().local_vars.get_i32(1), Ok(11));
    let top = stack.pop().unwrap();
    assert_eq!(top.local_vars.len(), 2);
    assert_eq!(stack.get_current_frame().unwrap().local_vars.len(), 1);
    assert_eq!(stack.pop().unwrap().local_vars.len(), 1);
    assert!(stack.pop().is_none());
    let mut none = Stack::new(0);
    assert_eq!(none.push(Frame::new(0, 0)), Err(RuntimeError::StackOverflow));
}

#[test]
fn frame_is_sized_by_its_limits() {
    let frame = Frame::new(3, 5);
    assert_eq!(frame.local_vars.len(), 3);
    assert_eq!(frame.operand_stack.max_depth(), 5);
    assert_eq!(frame.operand_stack.depth(), 0);
    let thread = Thread { pc: 0, stack: Stack::new(8) };
    assert_eq!(thread.stack.depth(), 0);
}

#[test]
fn bit_patterns_convert_both_ways() {
    assert_eq!(to_i8(0x7F), 127);
    assert_eq!(to_i8(0x80), -128);
    assert_eq!(to_i8(0xFF), -1);
    assert_eq!(to_i16(0x8000), i16::MIN);
    assert_eq!(to_i16(0x7FFF), i16::MAX);
    assert_eq!(to_i32(0xFFFF_FFFF), -1);
    assert_eq!(to_i32(0x8000_0000), i32::MIN);
    assert_eq!(to_i32(5), 5);
    assert_eq!(to_i64(u64::MAX), -1);
    assert_eq!(to_i64(0x8000_0000_0000_0000), i64::MIN);
    assert_eq!(to_u32(-1), u32::MAX);
    assert_eq!(to_u32(i32::MIN), 0x8000_0000);
    assert_eq!(to_u64(-2), u64::MAX - 1);
    assert_eq!(to_u64(i64::MAX), 0x7FFF_FFFF_FFFF_FFFF);
}
