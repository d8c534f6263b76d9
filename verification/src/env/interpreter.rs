//! Running the code of one method from its first instruction to its end.

use crate::bits::fits;
use crate::class::simple_loader::attribute_info::{CodeAttribute, CodeModel};
use crate::env::basic_env_elements::{blank_slots, Frame, FrameModel, Slot, Stack};
use crate::env::byte_code_reader::ByteCodeReader;
use crate::env::inst::{instruction_for, Instruction};
use crate::error::RuntimeError;
use vstd::prelude::*;

verus! {

/// Number of frames that the call stack of a run can hold.
pub const MAX_CALL_DEPTH: usize = 1024;

/// What a run leaves behind: the frame of the method as the last
/// instruction left it.
#[derive(Debug, PartialEq, Eq)]
pub struct ExecutionResult {
    pub frame: Frame,
}

/// Number of bytes that the instruction at `pc` takes: the opcode and its
/// operands.
pub open spec fn instruction_len(code: Seq<u8>, pc: int) -> int {
    match instruction_for(code[pc]) {
        Ok(blank) => 1 + blank.operand_len(),
        Err(_) => 1,
    }
}

/// An instruction takes one byte or two.
pub proof fn lemma_instruction_len(code: Seq<u8>, pc: int)
    ensures
        1 <= instruction_len(code, pc) <= 2,
{
}

/// The frame `f` after the instruction at `pc` in `code`.
#[verifier::opaque]
pub open spec fn step_from(code: Seq<u8>, pc: int, f: FrameModel) -> Result<
    FrameModel,
    RuntimeError,
> {
    if !fits(code, pc, 1) {
        Err(RuntimeError::TruncatedCode)
    } else {
        match instruction_for(code[pc]) {
            Err(e) => Err(e),
            Ok(blank) => if !fits(code, pc, instruction_len(code, pc)) {
                Err(RuntimeError::TruncatedCode)
            } else {
                blank.with_operands(code, pc + 1).effect(f)
            },
        }
    }
}

/// The frame `f` after the instructions of `code` from `pc` to the end.
pub open spec fn run_from(code: Seq<u8>, pc: int, f: FrameModel) -> Result<
    FrameModel,
    RuntimeError,
>
    decreases code.len() + 2 - pc,
{
    if pc < 0 || pc >= code.len() {
        Ok(f)
    } else {
        match step_from(code, pc, f) {
            Err(e) => Err(e),
            Ok(after) => run_from(code, pc + instruction_len(code, pc), after),
        }
    }
}

/// The frame a method starts in: `initial` in the first local variables,
/// 0 in the others, and an empty operand stack.
pub open spec fn first_frame(code: CodeModel, initial: Seq<Slot>) -> Result<
    FrameModel,
    RuntimeError,
> {
    if initial.len() > code.max_locals {
        Err(RuntimeError::LocalIndexOutOfRange)
    } else {
        Ok(
            FrameModel {
                locals: initial + blank_slots((code.max_locals - initial.len()) as nat),
                stack: Seq::empty(),
                max_stack: code.max_stack as nat,
            },
        )
    }
}

/// The frame that a run of `code` with the arguments `initial` ends in.
pub open spec fn run_result(code: CodeModel, initial: Seq<Slot>) -> Result<
    FrameModel,
    RuntimeError,
> {
    match first_frame(code, initial) {
        Err(e) => Err(e),
        Ok(f) => run_from(code.code, 0, f),
    }
}

/// Runs the instruction at the reader's position on `frame`: finds it by its
/// opcode, lets it read its operands, and lets it act. Where this fails, the
/// frame is unchanged.
pub fn step(reader: &mut ByteCodeReader, frame: &mut Frame) -> (r: Result<(), RuntimeError>)
    requires
        old(frame).wf(),
    ensures
        final(frame).wf(),
        final(reader).code() == old(reader).code(),
        match r {
            Ok(_) => step_from(old(reader).code(), old(reader).pc as int, old(frame)@) == Ok::<
                FrameModel,
                RuntimeError,
            >(final(frame)@) && final(reader).pc == old(reader).pc + instruction_len(
                old(reader).code(),
                old(reader).pc as int,
            ) && final(reader).pc <= old(reader).code().len(),
            Err(e) => step_from(old(reader).code(), old(reader).pc as int, old(frame)@) == Err::<
                FrameModel,
                RuntimeError,
            >(e) && *final(frame) == *old(frame),
        },
{
    reveal(step_from);
    let opcode: u8 = reader.read_u8()?;
    let mut inst: Instruction = Instruction::for_opcode(opcode)?;
    inst.fetch_operands(reader)?;
    inst.execute(frame)
}

/// Makes the frame that a method starts in.
pub fn new_frame(code: &CodeAttribute, initial_locals: &Vec<Slot>) -> (r: Result<
    Frame,
    RuntimeError,
>)
    ensures
        match r {
            Ok(frame) => frame.wf() && first_frame(code@, initial_locals@) == Ok::<
                FrameModel,
                RuntimeError,
            >(frame@),
            Err(e) => first_frame(code@, initial_locals@) == Err::<FrameModel, RuntimeError>(e),
        },
{
    let max_locals: usize = code.max_locals as usize;
    let n: usize = initial_locals.len();
    if n > max_locals {
        return Err(RuntimeError::LocalIndexOutOfRange);
    }
    let mut frame: Frame = Frame::new(max_locals, code.max_stack as usize);
    let mut i: usize = 0;
    assert(frame.local_vars@ =~= initial_locals@.take(0) + blank_slots(max_locals as nat));
    while i < n
        invariant
            i <= n,
            n == initial_locals.len(),
            n <= max_locals,
            frame.wf(),
            frame.operand_stack@ == Seq::<Slot>::empty(),
            frame.operand_stack.capacity() == code.max_stack,
            frame.local_vars@ == initial_locals@.take(i as int) + blank_slots(
                (max_locals - i) as nat,
            ),
        decreases n - i,
    {
        let ghost before = frame.local_vars@;
        frame.local_vars.set_slot(i, initial_locals[i])?;
        i += 1;
        assert(frame.local_vars@ =~= initial_locals@.take(i as int) + blank_slots(
            (max_locals - i) as nat,
        ));
    }
    assert(initial_locals@.take(n as int) =~= initial_locals@);
    Ok(frame)
}

/// Runs the code of a method: makes its frame, with `initial_locals` in the
/// first local variables, puts the frame on a call stack, and runs one
/// instruction after the other until the code ends or one of them fails.
pub fn run(code: &CodeAttribute, initial_locals: &Vec<Slot>) -> (r: Result<
    ExecutionResult,
    RuntimeError,
>)
    ensures
        match r {
            Ok(result) => result.frame.wf() && run_result(code@, initial_locals@) == Ok::<
                FrameModel,
                RuntimeError,
            >(result.frame@),
            Err(e) => run_result(code@, initial_locals@) == Err::<FrameModel, RuntimeError>(e),
        },
{
    let first: Frame = new_frame(code, initial_locals)?;
    let ghost start = first@;
    let mut stack: Stack = Stack::new(MAX_CALL_DEPTH);
    stack.push(first)?;
    let mut reader: ByteCodeReader = ByteCodeReader::new(code.code.clone());
    assert(reader.code() =~= code@.code);
    let mut frame: Frame = match stack.pop() {
        Some(frame) => frame,
        None => {
            return Err(RuntimeError::StackUnderflow);
        },
    };
    while reader.pc < reader.len()
        invariant
            frame.wf(),
            reader.code() == code@.code,
            first_frame(code@, initial_locals@) == Ok::<FrameModel, RuntimeError>(start),
            run_from(code@.code, 0, start) == run_from(code@.code, reader.pc as int, frame@),
        decreases reader.code().len() - reader.pc,
    {
        let ghost here = reader.pc as int;
        proof {
            lemma_instruction_len(reader.code(), here);
        }
        step(&mut reader, &mut frame)?;
        assert(reader.pc > here);
    }
    Ok(ExecutionResult { frame })
}

} // verus!
