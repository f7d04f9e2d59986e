//! The rooting stack and the frames that nest on it.
//!
//! A `Stack` is a growable run of root slots. A `Frame` is the span of slots
//! from its base up to the top of the stack; leaving a frame truncates the
//! stack back to that base, so every value rooted in the frame is released.
use crate::error::JlrsResult;
use crate::value::Value;
use vstd::prelude::*;

verus! {

/// A growable run of root slots, owned by one runtime thread.
pub struct Stack {
    slots: Vec<Value>,
}

/// A scoped span of a stack: every slot at or above `base`.
#[derive(Clone, Copy, Debug)]
pub struct Frame {
    base: usize,
}

/// The slots left after a frame whose base is `base` is left.
pub open spec fn leave(slots: Seq<Value>, base: nat) -> Seq<Value> {
    slots.subrange(0, base as int)
}

impl View for Stack {
    type V = Seq<Value>;

    closed spec fn view(&self) -> Seq<Value> {
        self.slots@
    }
}

impl Frame {
    /// The root frame of a stack: it starts at the first slot.
    pub fn at_base() -> (r: Frame)
        ensures
            r.spec_base() == 0,
    {
        Frame { base: 0 }
    }

    /// The offset of this frame's first slot.
    pub closed spec fn spec_base(self) -> nat {
        self.base as nat
    }

    /// Returns the offset of this frame's first slot.
    pub fn base_offset(&self) -> (r: usize)
        ensures
            r == self.spec_base(),
    {
        self.base
    }
}

impl Stack {
    /// Creates an empty stack.
    pub fn new() -> (r: Stack)
        ensures
            r@ == Seq::<Value>::empty(),
    {
        Stack { slots: Vec::new() }
    }

    /// Returns the number of slots in use: the stack's high-water mark.
    pub fn size(&self) -> (r: usize)
        ensures
            r == self@.len(),
    {
        self.slots.len()
    }

    /// Makes room for `additional` more slots without changing what is rooted.
    pub fn reserve(&mut self, additional: usize)
        ensures
            final(self)@ == old(self)@,
    {
        self.slots.reserve(additional);
    }

    /// Returns the root frame of an empty stack.
    pub fn base(&self) -> (r: Frame)
        requires
            self@.len() == 0,
        ensures
            r.spec_base() == 0,
    {
        Frame { base: 0 }
    }

    /// Returns a frame that starts at the current top of the stack.
    pub fn nest(&self) -> (r: Frame)
        ensures
            r.spec_base() == self@.len(),
    {
        Frame { base: self.slots.len() }
    }

    /// Rebuilds the frame whose base is `offset`, discarding every slot above it.
    pub fn reconstruct(&mut self, offset: usize) -> (r: Frame)
        requires
            offset <= old(self)@.len(),
        ensures
            r.spec_base() == offset,
            final(self)@ == leave(old(self)@, offset as nat),
    {
        self.slots.truncate(offset);
        Frame { base: offset }
    }

    /// Roots `value` in `frame`, which must be the innermost frame, and returns it.
    pub fn root(&mut self, frame: &Frame, value: Value) -> (r: Value)
        requires
            frame.spec_base() <= old(self)@.len(),
        ensures
            r == value,
            final(self)@ == old(self)@.push(value),
    {
        self.slots.push(value);
        value
    }

    /// Returns the value in slot `i`.
    pub fn get(&self, i: usize) -> (r: Value)
        requires
            i < self@.len(),
        ensures
            r == self@[i as int],
    {
        self.slots[i]
    }

    /// Leaves `frame`: every slot from its base up is released.
    pub fn pop_frame(&mut self, frame: Frame)
        requires
            frame.spec_base() <= old(self)@.len(),
        ensures
            final(self)@ == leave(old(self)@, frame.spec_base()),
    {
        self.slots.truncate(frame.base);
    }

    /// Runs `body` in a new frame on top of this stack, then leaves that frame,
    /// whether `body` succeeded or failed. The body must leave the slots below
    /// its frame as it found them. A scope returns exactly the slots it was
    /// given, so a body made of further scopes meets that demand itself: at
    /// every depth of nesting, and whichever scope fails, the stack is back to
    /// its size from before the outermost scope once that scope returns.
    pub fn scope<T, F>(self, body: F) -> (r: (Stack, JlrsResult<T>))
        where
            F: FnOnce(Stack, Frame) -> (Stack, JlrsResult<T>),
        requires
            forall|s: Stack, fr: Frame|
                s@ == self@ && fr.spec_base() == self@.len() ==> #[trigger] body.requires((s, fr)),
            forall|s: Stack, fr: Frame, out: (Stack, JlrsResult<T>)|
                #[trigger] body.ensures((s, fr), out) ==> s@.is_prefix_of(out.0@),
        ensures
            r.0@ == self@,
            exists|s: Stack, fr: Frame, out: Stack|
                s@ == self@ && fr.spec_base() == self@.len() && #[trigger] body.ensures((s, fr), (out, r.1))
                && r.0@ == leave(out@, fr.spec_base()),
    {
        let ghost entry = self;
        let frame = self.nest();
        let (mut stack, res) = body(self, frame);
        let ghost out = stack;
        stack.pop_frame(frame);
        assert(stack@ =~= entry@);
        let r = (stack, res);
        assert(body.ensures((entry, frame), (out, r.1)));
        r
    }

    /// As `scope`, after making room for `capacity` slots.
    pub fn scope_with_capacity<T, F>(self, capacity: usize, body: F) -> (r: (Stack, JlrsResult<T>))
        where
            F: FnOnce(Stack, Frame) -> (Stack, JlrsResult<T>),
        requires
            forall|s: Stack, fr: Frame|
                s@ == self@ && fr.spec_base() == self@.len() ==> #[trigger] body.requires((s, fr)),
            forall|s: Stack, fr: Frame, out: (Stack, JlrsResult<T>)|
                #[trigger] body.ensures((s, fr), out) ==> s@.is_prefix_of(out.0@),
        ensures
            r.0@ == self@,
            exists|s: Stack, fr: Frame, out: Stack|
                s@ == self@ && fr.spec_base() == self@.len() && #[trigger] body.ensures((s, fr), (out, r.1))
                && r.0@ == leave(out@, fr.spec_base()),
    {
        let mut stack = self;
        stack.reserve(capacity);
        stack.scope(body)
    }
}

} // verus!
