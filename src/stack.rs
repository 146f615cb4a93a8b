use vstd::prelude::*;

verus! {

/// Errors reported by the fallible stack operations.
#[derive(Debug, PartialEq, Eq, Structural)]
pub enum StackError {
    /// A push on a stack that already holds `capacity` elements.
    Overflow,
    /// A pop on a stack that holds no element.
    Underflow,
}

impl StackError {
    /// Human-readable description of the error.
    pub fn message(&self) -> (r: String)
        ensures
            *self == StackError::Overflow ==> r@ == "Stack overflow error"@,
            *self == StackError::Underflow ==> r@ == "Stack underflow error"@,
    {
        match self {
            StackError::Overflow => "Stack overflow error".to_owned(),
            StackError::Underflow => "Stack underflow error".to_owned(),
        }
    }
}

/// A last-in-first-out stack over a backing buffer allocated once, at
/// construction, with room for exactly `capacity` elements.
///
/// Slots at or above `pointer` hold stale values that are not part of the
/// stack.
pub struct Stack<T> {
    pointer: usize,
    capacity: usize,
    data: Vec<T>,
}

impl<T> View for Stack<T> {
    type V = Seq<T>;

    /// The live elements, bottom first: the last one is the top.
    closed spec fn view(&self) -> Seq<T> {
        self.data@.subrange(0, self.pointer as int)
    }
}

impl<T> Stack<T> {
    /// The number of elements the stack can hold; fixed at construction.
    pub closed spec fn cap(&self) -> nat {
        self.capacity as nat
    }

    /// The backing buffer has exactly `capacity` slots and the live prefix
    /// fits in it.
    pub closed spec fn wf(&self) -> bool {
        &&& self.data@.len() == self.capacity
        &&& self.pointer <= self.capacity
    }

    /// The top element in the mathematical model, if any.
    pub open spec fn spec_top(&self) -> Option<T> {
        if self@.len() == 0 {
            None
        } else {
            Some(self@.last())
        }
    }

    /// What a push of `value` on `pre` leads to, with `r` its result: on a
    /// stack with room, `value` becomes the new top; on a full one, the result
    /// is `Overflow` and the stack is unchanged.
    pub open spec fn push_post(
        pre: Stack<T>,
        value: T,
        post: Stack<T>,
        r: Result<(), StackError>,
    ) -> bool {
        &&& post.wf()
        &&& post.cap() == pre.cap()
        &&& pre@.len() < pre.cap() ==> r is Ok && post@ == pre@.push(value)
        &&& pre@.len() >= pre.cap() ==> r == Err::<(), StackError>(StackError::Overflow) && post@
            == pre@
    }

    /// What a pop on `pre` leads to, with `r` its result: on a non-empty stack
    /// the top is removed and handed back; on an empty one, the result is
    /// `Underflow` and the stack is unchanged.
    pub open spec fn pop_post(pre: Stack<T>, post: Stack<T>, r: Result<T, StackError>) -> bool {
        &&& post.wf()
        &&& post.cap() == pre.cap()
        &&& pre@.len() > 0 ==> r == Ok::<T, StackError>(pre@.last()) && post@ == pre@.drop_last()
        &&& pre@.len() == 0 ==> r == Err::<T, StackError>(StackError::Underflow) && post@ == pre@
    }
}

impl<T: Default + Clone> Stack<T> {
    /// Creates an empty stack whose buffer holds `size` default values.
    pub fn new(size: usize) -> (s: Stack<T>)
        ensures
            s.wf(),
            s@ == Seq::<T>::empty(),
            s.cap() == size,
    {
        let s = Stack { pointer: 0, capacity: size, data: vec![T::default(); size] };
        assert(s@ =~= Seq::<T>::empty());
        s
    }

    /// The number of live elements.
    pub fn size(&self) -> (r: usize)
        requires
            self.wf(),
        ensures
            r == self@.len(),
    {
        self.pointer
    }

    /// Whether the stack holds no element.
    pub fn is_empty(&self) -> (r: bool)
        requires
            self.wf(),
        ensures
            r == (self@.len() == 0),
    {
        self.pointer == 0
    }

    /// The number of elements the stack can hold.
    pub fn capacity(&self) -> (r: usize)
        requires
            self.wf(),
        ensures
            r == self.cap(),
    {
        self.capacity
    }

    /// Clones of the live elements, bottom first.
    pub fn live_elements(&self) -> (r: Vec<T>)
        requires
            self.wf(),
        ensures
            r@.len() == self@.len(),
            forall|i: int| 0 <= i < r@.len() ==> cloned(#[trigger] self@[i], r@[i]),
    {
        let mut r: Vec<T> = Vec::new();
        let mut i: usize = 0;
        while i < self.pointer
            invariant
                self.wf(),
                i <= self.pointer,
                r@.len() == i,
                forall|j: int| 0 <= j < i ==> cloned(#[trigger] self@[j], r@[j]),
            decreases self.pointer - i,
        {
            r.push(self.data[i].clone());
            i = i + 1;
        }
        r
    }

    /// A clone of the top element, or `None` on an empty stack.
    pub fn top(&self) -> (r: Option<T>)
        requires
            self.wf(),
        ensures
            self@.len() == 0 <==> r is None,
            r matches Some(v) ==> cloned(self@.last(), v),
    {
        if self.is_empty() {
            None
        } else {
            Some(self.data[self.pointer - 1].clone())
        }
    }

    /// Puts `value` on top, or reports `Overflow` and leaves the stack as it
    /// was when it already holds `capacity` elements.
    pub fn push(&mut self, value: T) -> (r: Result<(), StackError>)
        requires
            old(self).wf(),
        ensures
            Self::push_post(*old(self), value, *final(self), r),
    {
        if self.pointer >= self.capacity {
            return Err(StackError::Overflow);
        }
        self.data.set(self.pointer, value);
        self.pointer = self.pointer + 1;
        assert(self@ =~= old(self)@.push(value));
        Ok(())
    }

    /// Removes the top element and hands it back, or reports `Underflow` and
    /// leaves the stack as it was when it is empty.
    pub fn pop(&mut self) -> (r: Result<T, StackError>)
        requires
            old(self).wf(),
        ensures
            Self::pop_post(*old(self), *final(self), r),
    {
        if self.pointer == 0 {
            return Err(StackError::Underflow);
        }
        let mut value = T::default();
        self.data.set_and_swap(self.pointer - 1, &mut value);
        self.pointer = self.pointer - 1;
        assert(self@ =~= old(self)@.drop_last());
        Ok(value)
    }
}

} // verus!
