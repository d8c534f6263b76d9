//! The value model of one thread: slots, local variables, the operand
//! stack, frames, and the call stack.
//!
//! A slot holds a 32-bit number or a reference. A 64-bit value takes two
//! slots side by side, the upper half first. Nothing marks the pair: whoever
//! writes a value of one width reads it back at the same width.

use crate::bits::{
    high_half, join_halves, join_i64, low_half, pattern32, pattern64, signed32, signed64,
    split_i64, to_i32, to_i64, to_u32, to_u64,
};
use crate::error::RuntimeError;
use vstd::prelude::*;

verus! {

/// A reference to an object. The heap that it points into lies outside this
/// library.
#[derive(Clone, Copy, Debug, PartialEq, Eq, Structural)]
pub struct Object {
    pub handle: u32,
}

/// The unit of the value model: a 32-bit number, be it an int or the bit
/// pattern of a float, or a reference.
#[derive(Clone, Copy, Debug, PartialEq, Eq, Structural)]
pub enum Slot {
    Num(i32),
    Ref(Object),
}

/// `n` slots that each hold the number 0.
pub open spec fn blank_slots(n: nat) -> Seq<Slot> {
    Seq::new(n, |i: int| Slot::Num(0))
}

/// The two slots that hold the 64-bit value `v`.
pub open spec fn long_slots(v: i64) -> Seq<Slot> {
    seq![Slot::Num(high_half(v)), Slot::Num(low_half(v))]
}

/// The number in slot `n`.
pub open spec fn num_at(slots: Seq<Slot>, n: int) -> Result<i32, RuntimeError> {
    if !(0 <= n < slots.len()) {
        Err(RuntimeError::LocalIndexOutOfRange)
    } else {
        match slots[n] {
            Slot::Num(v) => Ok(v),
            Slot::Ref(_) => Err(RuntimeError::SlotKindMismatch),
        }
    }
}

/// The 64-bit number in slots `n` and `n + 1`.
pub open spec fn long_at(slots: Seq<Slot>, n: int) -> Result<i64, RuntimeError> {
    if !(0 <= n && n + 1 < slots.len()) {
        Err(RuntimeError::LocalIndexOutOfRange)
    } else {
        match (slots[n], slots[n + 1]) {
            (Slot::Num(high), Slot::Num(low)) => Ok(join_halves(high, low)),
            _ => Err(RuntimeError::SlotKindMismatch),
        }
    }
}

/// The reference in slot `n`.
pub open spec fn ref_at(slots: Seq<Slot>, n: int) -> Result<Object, RuntimeError> {
    if !(0 <= n < slots.len()) {
        Err(RuntimeError::LocalIndexOutOfRange)
    } else {
        match slots[n] {
            Slot::Ref(object) => Ok(object),
            Slot::Num(_) => Err(RuntimeError::SlotKindMismatch),
        }
    }
}

/// `slots` with the 64-bit value `v` in slots `n` and `n + 1`.
pub open spec fn with_long(slots: Seq<Slot>, n: int, v: i64) -> Seq<Slot> {
    slots.update(n, Slot::Num(high_half(v))).update(n + 1, Slot::Num(low_half(v)))
}

/// The same result with each number read as its bit pattern.
pub open spec fn as_pattern32(r: Result<i32, RuntimeError>) -> Result<u32, RuntimeError> {
    match r {
        Ok(v) => Ok(pattern32(v)),
        Err(e) => Err(e),
    }
}

/// The same result with each number read as its bit pattern.
pub open spec fn as_pattern64(r: Result<i64, RuntimeError>) -> Result<u64, RuntimeError> {
    match r {
        Ok(v) => Ok(pattern64(v)),
        Err(e) => Err(e),
    }
}

/// A 64-bit value written to two slots reads back unchanged, and the two
/// slots read one by one hold its upper and its lower half.
pub proof fn lemma_long_slots_read_back(slots: Seq<Slot>, n: int, v: i64)
    requires
        0 <= n,
        n + 1 < slots.len(),
    ensures
        long_at(with_long(slots, n, v), n) == Ok::<i64, RuntimeError>(v),
        num_at(with_long(slots, n, v), n) == Ok::<i32, RuntimeError>(high_half(v)),
        num_at(with_long(slots, n, v), n + 1) == Ok::<i32, RuntimeError>(low_half(v)),
        v == high_half(v) * 0x1_0000_0000 + pattern32(low_half(v)),
{
}

/// The local variables of one frame: a fixed number of slots.
#[derive(Debug, PartialEq, Eq)]
pub struct LocalVars {
    vec: Vec<Slot>,
}

impl View for LocalVars {
    type V = Seq<Slot>;

    closed spec fn view(&self) -> Seq<Slot> {
        self.vec@
    }
}

impl LocalVars {
    /// `size` slots, each holding the number 0.
    pub fn new(size: usize) -> (locals: LocalVars)
        ensures
            locals@ == blank_slots(size as nat),
    {
        let mut vec: Vec<Slot> = Vec::new();
        let mut i: usize = 0;
        while i < size
            invariant
                i <= size,
                vec@ == blank_slots(i as nat),
            decreases size - i,
        {
            vec.push(Slot::Num(0));
            i += 1;
            assert(vec@ =~= blank_slots(i as nat));
        }
        LocalVars { vec }
    }

    /// Number of slots.
    pub fn len(&self) -> (n: usize)
        ensures
            n == self@.len(),
    {
        self.vec.len()
    }

    /// The slot at index `n`.
    pub fn get_slot(&self, n: usize) -> (r: Result<Slot, RuntimeError>)
        ensures
            match r {
                Ok(slot) => n < self@.len() && slot == self@[n as int],
                Err(e) => e == RuntimeError::LocalIndexOutOfRange && n >= self@.len(),
            },
    {
        if n < self.vec.len() {
            Ok(self.vec[n])
        } else {
            Err(RuntimeError::LocalIndexOutOfRange)
        }
    }

    /// Puts `slot` at index `n`.
    pub fn set_slot(&mut self, n: usize, slot: Slot) -> (r: Result<(), RuntimeError>)
        ensures
            match r {
                Ok(_) => n < old(self)@.len() && final(self)@ == old(self)@.update(n as int, slot),
                Err(e) => e == RuntimeError::LocalIndexOutOfRange && n >= old(self)@.len()
                    && *final(self) == *old(self),
            },
    {
        if n < self.vec.len() {
            self.vec.set(n, slot);
            Ok(())
        } else {
            Err(RuntimeError::LocalIndexOutOfRange)
        }
    }

    pub fn set_i32(&mut self, n: usize, v: i32) -> (r: Result<(), RuntimeError>)
        ensures
            match r {
                Ok(_) => n < old(self)@.len() && final(self)@ == old(self)@.update(
                    n as int,
                    Slot::Num(v),
                ),
                Err(e) => e == RuntimeError::LocalIndexOutOfRange && n >= old(self)@.len()
                    && *final(self) == *old(self),
            },
    {
        self.set_slot(n, Slot::Num(v))
    }

    pub fn get_i32(&self, n: usize) -> (r: Result<i32, RuntimeError>)
        ensures
            r == num_at(self@, n as int),
    {
        match self.get_slot(n)? {
            Slot::Num(v) => Ok(v),
            Slot::Ref(_) => Err(RuntimeError::SlotKindMismatch),
        }
    }

    /// Writes the upper half of `v` to slot `n` and the lower half to slot
    /// `n + 1`. Both slots must exist, or nothing is written.
    pub fn set_i64(&mut self, n: usize, v: i64) -> (r: Result<(), RuntimeError>)
        ensures
            match r {
                Ok(_) => n + 1 < old(self)@.len() && final(self)@ == with_long(
                    old(self)@,
                    n as int,
                    v,
                ),
                Err(e) => e == RuntimeError::LocalIndexOutOfRange && n + 1 >= old(self)@.len()
                    && *final(self) == *old(self),
            },
    {
        if n >= self.vec.len() || self.vec.len() - n < 2 {
            return Err(RuntimeError::LocalIndexOutOfRange);
        }
        let (high, low): (i32, i32) = split_i64(v);
        self.vec.set(n, Slot::Num(high));
        self.vec.set(n + 1, Slot::Num(low));
        Ok(())
    }

    /// Joins the numbers in slots `n` and `n + 1` into a 64-bit value.
    pub fn get_i64(&self, n: usize) -> (r: Result<i64, RuntimeError>)
        ensures
            r == long_at(self@, n as int),
    {
        if n >= self.vec.len() || self.vec.len() - n < 2 {
            return Err(RuntimeError::LocalIndexOutOfRange);
        }
        match (self.vec[n], self.vec[n + 1]) {
            (Slot::Num(high), Slot::Num(low)) => Ok(join_i64(high, low)),
            _ => Err(RuntimeError::SlotKindMismatch),
        }
    }

    /// Writes a 32-bit float, given as its bit pattern.
    pub fn set_f32(&mut self, n: usize, bits: u32) -> (r: Result<(), RuntimeError>)
        ensures
            match r {
                Ok(_) => n < old(self)@.len() && final(self)@ == old(self)@.update(
                    n as int,
                    Slot::Num(signed32(bits)),
                ),
                Err(e) => e == RuntimeError::LocalIndexOutOfRange && n >= old(self)@.len()
                    && *final(self) == *old(self),
            },
    {
        self.set_i32(n, to_i32(bits))
    }

    /// Reads a 32-bit float, as its bit pattern.
    pub fn get_f32(&self, n: usize) -> (r: Result<u32, RuntimeError>)
        ensures
            r == as_pattern32(num_at(self@, n as int)),
    {
        Ok(to_u32(self.get_i32(n)?))
    }

    /// Writes a 64-bit float, given as its bit pattern, to slots `n` and
    /// `n + 1`.
    pub fn set_f64(&mut self, n: usize, bits: u64) -> (r: Result<(), RuntimeError>)
        ensures
            match r {
                Ok(_) => n + 1 < old(self)@.len() && final(self)@ == with_long(
                    old(self)@,
                    n as int,
                    signed64(bits),
                ),
                Err(e) => e == RuntimeError::LocalIndexOutOfRange && n + 1 >= old(self)@.len()
                    && *final(self) == *old(self),
            },
    {
        self.set_i64(n, to_i64(bits))
    }

    /// Reads a 64-bit float, as its bit pattern, from slots `n` and `n + 1`.
    pub fn get_f64(&self, n: usize) -> (r: Result<u64, RuntimeError>)
        ensures
            r == as_pattern64(long_at(self@, n as int)),
    {
        Ok(to_u64(self.get_i64(n)?))
    }

    /// Writes a reference. The slot no longer holds a number.
    pub fn set_obj(&mut self, n: usize, v: Object) -> (r: Result<(), RuntimeError>)
        ensures
            match r {
                Ok(_) => n < old(self)@.len() && final(self)@ == old(self)@.update(
                    n as int,
                    Slot::Ref(v),
                ),
                Err(e) => e == RuntimeError::LocalIndexOutOfRange && n >= old(self)@.len()
                    && *final(self) == *old(self),
            },
    {
        self.set_slot(n, Slot::Ref(v))
    }

    pub fn get_obj(&self, n: usize) -> (r: Result<Object, RuntimeError>)
        ensures
            r == ref_at(self@, n as int),
    {
        match self.get_slot(n)? {
            Slot::Ref(object) => Ok(object),
            Slot::Num(_) => Err(RuntimeError::SlotKindMismatch),
        }
    }
}

/// The number on top of `stack`.
pub open spec fn top_num(stack: Seq<Slot>) -> Result<i32, RuntimeError> {
    if stack.len() < 1 {
        Err(RuntimeError::StackUnderflow)
    } else {
        match stack.last() {
            Slot::Num(v) => Ok(v),
            Slot::Ref(_) => Err(RuntimeError::SlotKindMismatch),
        }
    }
}

/// The 64-bit number in the two slots on top of `stack`.
pub open spec fn top_long(stack: Seq<Slot>) -> Result<i64, RuntimeError> {
    if stack.len() < 2 {
        Err(RuntimeError::StackUnderflow)
    } else {
        match (stack[stack.len() - 2], stack[stack.len() - 1]) {
            (Slot::Num(high), Slot::Num(low)) => Ok(join_halves(high, low)),
            _ => Err(RuntimeError::SlotKindMismatch),
        }
    }
}

/// The reference on top of `stack`.
pub open spec fn top_ref(stack: Seq<Slot>) -> Result<Object, RuntimeError> {
    if stack.len() < 1 {
        Err(RuntimeError::StackUnderflow)
    } else {
        match stack.last() {
            Slot::Ref(object) => Ok(object),
            Slot::Num(_) => Err(RuntimeError::SlotKindMismatch),
        }
    }
}

/// `stack` without its top `n` slots.
pub open spec fn without_top(stack: Seq<Slot>, n: int) -> Seq<Slot> {
    stack.subrange(0, stack.len() - n)
}

/// A pop straight after a push of the same kind returns what was pushed and
/// leaves the stack as it was before the push.
pub proof fn lemma_pop_undoes_push(stack: Seq<Slot>, v: i32, wide: i64, object: Object)
    ensures
        top_num(stack.push(Slot::Num(v))) == Ok::<i32, RuntimeError>(v),
        without_top(stack.push(Slot::Num(v)), 1) == stack,
        top_long(stack + long_slots(wide)) == Ok::<i64, RuntimeError>(wide),
        without_top(stack + long_slots(wide), 2) == stack,
        top_ref(stack.push(Slot::Ref(object))) == Ok::<Object, RuntimeError>(object),
        without_top(stack.push(Slot::Ref(object)), 1) == stack,
{
    assert(without_top(stack.push(Slot::Num(v)), 1) =~= stack);
    assert(without_top(stack + long_slots(wide), 2) =~= stack);
    assert(without_top(stack.push(Slot::Ref(object)), 1) =~= stack);
}

/// The operand stack of one frame: slots up to a fixed capacity, of which
/// the lowest are in use.
#[derive(Debug, PartialEq, Eq)]
pub struct OperandStack {
    local_vars: LocalVars,
    index: usize,
}

impl View for OperandStack {
    type V = Seq<Slot>;

    /// The slots in use, the top of the stack last.
    closed spec fn view(&self) -> Seq<Slot> {
        self.local_vars@.subrange(0, self.index as int)
    }
}

impl OperandStack {
    /// The slots in use lie within the capacity.
    pub closed spec fn wf(self) -> bool {
        self.index <= self.local_vars@.len()
    }

    /// No more slots are in use than the stack can hold.
    pub proof fn lemma_within_capacity(self)
        requires
            self.wf(),
        ensures
            self@.len() <= self.capacity(),
    {
    }

    /// The number of slots that the stack can hold.
    pub closed spec fn capacity(self) -> nat {
        self.local_vars@.len()
    }

    /// This stack is `from` after a push of `slots`.
    pub open spec fn pushed(self, from: Self, slots: Seq<Slot>) -> bool {
        &&& self.wf()
        &&& from@.len() + slots.len() <= from.capacity()
        &&& self@ == from@ + slots
        &&& self.capacity() == from.capacity()
    }

    /// This stack is `from` after a push for which there was no room:
    /// nothing has changed.
    pub open spec fn overflowed(self, from: Self, e: RuntimeError, n: int) -> bool {
        &&& e == RuntimeError::StackOverflow
        &&& from@.len() + n > from.capacity()
        &&& self == from
    }

    /// This stack is `from` after a pop of `n` slots that gave `r`: on
    /// failure nothing has changed.
    pub open spec fn popped<T>(self, from: Self, r: Result<T, RuntimeError>, n: int) -> bool {
        &&& self.wf()
        &&& r is Ok ==> self@ == without_top(from@, n) && self.capacity() == from.capacity()
        &&& r is Err ==> self == from
    }

    /// An empty stack with room for `size` slots.
    pub fn new(size: usize) -> (stack: OperandStack)
        ensures
            stack.wf(),
            stack@ == Seq::<Slot>::empty(),
            stack.capacity() == size,
    {
        let stack = OperandStack { local_vars: LocalVars::new(size), index: 0 };
        assert(stack@ =~= Seq::<Slot>::empty());
        stack
    }

    /// Number of slots in use.
    pub fn depth(&self) -> (n: usize)
        requires
            self.wf(),
        ensures
            n == self@.len(),
            n <= self.capacity(),
    {
        self.index
    }

    /// Number of slots that the stack can hold.
    pub fn max_depth(&self) -> (n: usize)
        requires
            self.wf(),
        ensures
            n == self.capacity(),
            self@.len() <= n,
    {
        self.local_vars.len()
    }

    pub fn push_i32(&mut self, v: i32) -> (r: Result<(), RuntimeError>)
        requires
            old(self).wf(),
        ensures
            match r {
                Ok(_) => final(self).pushed(*old(self), seq![Slot::Num(v)]),
                Err(e) => final(self).overflowed(*old(self), e, 1),
            },
    {
        if self.index >= self.local_vars.len() {
            return Err(RuntimeError::StackOverflow);
        }
        self.local_vars.set_i32(self.index, v)?;
        self.index += 1;
        assert(self@ =~= old(self)@ + seq![Slot::Num(v)]);
        Ok(())
    }

    pub fn pop_i32(&mut self) -> (r: Result<i32, RuntimeError>)
        requires
            old(self).wf(),
        ensures
            r == top_num(old(self)@),
            final(self).popped(*old(self), r, 1),
    {
        if self.index < 1 {
            return Err(RuntimeError::StackUnderflow);
        }
        let v: i32 = self.local_vars.get_i32(self.index - 1)?;
        self.index -= 1;
        assert(self@ =~= without_top(old(self)@, 1));
        Ok(v)
    }

    /// Pushes the upper half of `v` and then the lower half.
    pub fn push_i64(&mut self, v: i64) -> (r: Result<(), RuntimeError>)
        requires
            old(self).wf(),
        ensures
            match r {
                Ok(_) => final(self).pushed(*old(self), long_slots(v)),
                Err(e) => final(self).overflowed(*old(self), e, 2),
            },
    {
        if self.local_vars.len() - self.index < 2 {
            return Err(RuntimeError::StackOverflow);
        }
        self.local_vars.set_i64(self.index, v)?;
        self.index += 2;
        assert(self@ =~= old(self)@ + long_slots(v));
        Ok(())
    }

    /// Pops two slots and joins them: the lower half lies on top.
    pub fn pop_i64(&mut self) -> (r: Result<i64, RuntimeError>)
        requires
            old(self).wf(),
        ensures
            r == top_long(old(self)@),
            final(self).popped(*old(self), r, 2),
    {
        if self.index < 2 {
            return Err(RuntimeError::StackUnderflow);
        }
        let v: i64 = self.local_vars.get_i64(self.index - 2)?;
        self.index -= 2;
        assert(self@ =~= without_top(old(self)@, 2));
        Ok(v)
    }

    /// Pushes a 32-bit float, given as its bit pattern.
    pub fn push_f32(&mut self, bits: u32) -> (r: Result<(), RuntimeError>)
        requires
            old(self).wf(),
        ensures
            match r {
                Ok(_) => final(self).pushed(*old(self), seq![Slot::Num(signed32(bits))]),
                Err(e) => final(self).overflowed(*old(self), e, 1),
            },
    {
        self.push_i32(to_i32(bits))
    }

    /// Pops a 32-bit float, as its bit pattern.
    pub fn pop_f32(&mut self) -> (r: Result<u32, RuntimeError>)
        requires
            old(self).wf(),
        ensures
            r == as_pattern32(top_num(old(self)@)),
            final(self).popped(*old(self), r, 1),
    {
        Ok(to_u32(self.pop_i32()?))
    }

    /// Pushes a 64-bit float, given as its bit pattern.
    pub fn push_f64(&mut self, bits: u64) -> (r: Result<(), RuntimeError>)
        requires
            old(self).wf(),
        ensures
            match r {
                Ok(_) => final(self).pushed(*old(self), long_slots(signed64(bits))),
                Err(e) => final(self).overflowed(*old(self), e, 2),
            },
    {
        self.push_i64(to_i64(bits))
    }

    /// Pops a 64-bit float, as its bit pattern.
    pub fn pop_f64(&mut self) -> (r: Result<u64, RuntimeError>)
        requires
            old(self).wf(),
        ensures
            r == as_pattern64(top_long(old(self)@)),
            final(self).popped(*old(self), r, 2),
    {
        Ok(to_u64(self.pop_i64()?))
    }

    pub fn push_obj(&mut self, obj: Object) -> (r: Result<(), RuntimeError>)
        requires
            old(self).wf(),
        ensures
            match r {
                Ok(_) => final(self).pushed(*old(self), seq![Slot::Ref(obj)]),
                Err(e) => final(self).overflowed(*old(self), e, 1),
            },
    {
        if self.index >= self.local_vars.len() {
            return Err(RuntimeError::StackOverflow);
        }
        self.local_vars.set_obj(self.index, obj)?;
        self.index += 1;
        assert(self@ =~= old(self)@ + seq![Slot::Ref(obj)]);
        Ok(())
    }

    pub fn pop_obj(&mut self) -> (r: Result<Object, RuntimeError>)
        requires
            old(self).wf(),
        ensures
            r == top_ref(old(self)@),
            final(self).popped(*old(self), r, 1),
    {
        if self.index < 1 {
            return Err(RuntimeError::StackUnderflow);
        }
        let object: Object = self.local_vars.get_obj(self.index - 1)?;
        self.index -= 1;
        assert(self@ =~= without_top(old(self)@, 1));
        Ok(object)
    }
}

/// The activation record of one method call.
#[derive(Debug, PartialEq, Eq)]
pub struct Frame {
    pub local_vars: LocalVars,
    pub operand_stack: OperandStack,
}

/// What a frame holds: the local variables, the operand stack with its top
/// last, and the depth that the stack may reach.
pub struct FrameModel {
    pub locals: Seq<Slot>,
    pub stack: Seq<Slot>,
    pub max_stack: nat,
}

impl View for Frame {
    type V = FrameModel;

    open spec fn view(&self) -> FrameModel {
        FrameModel {
            locals: self.local_vars@,
            stack: self.operand_stack@,
            max_stack: self.operand_stack.capacity(),
        }
    }
}

impl Frame {
    /// The operand stack is well-formed.
    pub open spec fn wf(self) -> bool {
        self.operand_stack.wf()
    }

    /// A frame with `max_locals` local variables, each 0, and an empty
    /// operand stack with room for `max_stack` slots.
    pub fn new(max_locals: usize, max_stack: usize) -> (frame: Frame)
        ensures
            frame.wf(),
            frame@ == (FrameModel {
                locals: blank_slots(max_locals as nat),
                stack: Seq::empty(),
                max_stack: max_stack as nat,
            }),
    {
        Frame {
            local_vars: LocalVars::new(max_locals),
            operand_stack: OperandStack::new(max_stack),
        }
    }
}

/// What a list of frames holds.
pub open spec fn frames_model(frames: Seq<Frame>) -> Seq<FrameModel> {
    Seq::new(frames.len(), |i: int| frames[i]@)
}

/// The call stack of one thread: frames up to a fixed depth, the current
/// frame last.
#[derive(Debug, PartialEq, Eq)]
pub struct Stack {
    max_size: usize,
    vec: Vec<Frame>,
}

impl View for Stack {
    type V = Seq<FrameModel>;

    closed spec fn view(&self) -> Seq<FrameModel> {
        frames_model(self.vec@)
    }
}

impl Stack {
    /// The frames lie within the capacity, and each of them is well-formed.
    pub closed spec fn wf(self) -> bool {
        &&& self.vec@.len() <= self.max_size
        &&& forall|i: int| 0 <= i < self.vec@.len() ==> (#[trigger] self.vec@[i]).wf()
    }

    /// No more frames are on the stack than it can hold.
    pub proof fn lemma_within_capacity(self)
        requires
            self.wf(),
        ensures
            self@.len() <= self.capacity(),
    {
    }

    /// The number of frames that the stack can hold.
    pub closed spec fn capacity(self) -> nat {
        self.max_size as nat
    }

    /// An empty call stack with room for `max_size` frames.
    pub fn new(max_size: usize) -> (stack: Stack)
        ensures
            stack.wf(),
            stack@ == Seq::<FrameModel>::empty(),
            stack.capacity() == max_size,
    {
        let stack = Stack { max_size, vec: Vec::new() };
        assert(stack@ =~= Seq::<FrameModel>::empty());
        stack
    }

    /// Number of frames on the stack.
    pub fn depth(&self) -> (n: usize)
        requires
            self.wf(),
        ensures
            n == self@.len(),
            n <= self.capacity(),
    {
        self.vec.len()
    }

    /// Makes `frame` the current frame, unless the stack is full.
    pub fn push(&mut self, frame: Frame) -> (r: Result<(), RuntimeError>)
        requires
            old(self).wf(),
            frame.wf(),
        ensures
            final(self).wf(),
            final(self).capacity() == old(self).capacity(),
            match r {
                Ok(_) => old(self)@.len() < old(self).capacity() && final(self)@ == old(self)@.push(
                    frame@,
                ),
                Err(e) => e == RuntimeError::StackOverflow && old(self)@.len() >= old(
                    self,
                ).capacity() && final(self)@ == old(self)@,
            },
    {
        if self.vec.len() >= self.max_size {
            return Err(RuntimeError::StackOverflow);
        }
        self.vec.push(frame);
        assert(self@ =~= old(self)@.push(frame@));
        Ok(())
    }

    /// Takes the current frame off the stack.
    pub fn pop(&mut self) -> (r: Option<Frame>)
        requires
            old(self).wf(),
        ensures
            final(self).wf(),
            final(self).capacity() == old(self).capacity(),
            match r {
                Some(frame) => old(self)@.len() > 0 && frame.wf() && frame@ == old(self)@.last()
                    && final(self)@ == old(self)@.drop_last(),
                None => old(self)@.len() == 0 && final(self)@ == old(self)@,
            },
    {
        let r: Option<Frame> = self.vec.pop();
        assert(r is Some ==> self@ =~= old(self)@.drop_last());
        r
    }

    /// The frame pushed last, if there is one.
    pub fn get_current_frame(&self) -> (r: Option<&Frame>)
        requires
            self.wf(),
        ensures
            match r {
                Some(frame) => self@.len() > 0 && frame.wf() && frame@ == self@.last(),
                None => self@.len() == 0,
            },
    {
        let n: usize = self.vec.len();
        if n == 0 {
            None
        } else {
            Some(&self.vec[n - 1])
        }
    }
}

/// One thread of execution: where it stands in the code, and its call stack.
#[derive(Debug, PartialEq, Eq)]
pub struct Thread {
    pub pc: u32,
    pub stack: Stack,
}

} // verus!
