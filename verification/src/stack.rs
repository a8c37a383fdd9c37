//! A LIFO stack of return addresses (or any other values).

use vstd::prelude::*;

verus! {

/// A last-in, first-out stack backed by a vector; the view of a stack is
/// the sequence of its values, oldest first.
#[derive(Debug)]
pub struct Stack<T> {
    pub stack: Vec<T>,
}

impl<T> View for Stack<T> {
    type V = Seq<T>;

    open spec fn view(&self) -> Seq<T> {
        self.stack@
    }
}

impl<T> Stack<T> {
    /// Builds an empty stack.
    pub fn new() -> (r: Stack<T>)
        ensures
            r@ == Seq::<T>::empty(),
    {
        Stack::<T> { stack: Vec::<T>::new() }
    }

    /// Pushes a value on top of the stack.
    pub fn push(&mut self, value: T)
        ensures
            final(self)@ == old(self)@.push(value),
    {
        self.stack.push(value);
    }

    /// Removes the top value, if any; popping an empty stack leaves it
    /// empty.
    pub fn pop(&mut self)
        ensures
            old(self)@.len() == 0 ==> final(self)@ == old(self)@,
            old(self)@.len() > 0 ==> final(self)@ == old(self)@.drop_last(),
    {
        if self.stack.len() > 0 {
            let _ = self.stack.pop();
        }
    }

    /// True exactly when the stack holds no values.
    pub fn is_empty(&self) -> (r: bool)
        ensures
            r <==> self@.len() == 0,
    {
        self.stack.len() == 0
    }

    /// The number of values on the stack.
    pub fn size(&self) -> (r: usize)
        ensures
            r == self@.len(),
    {
        self.stack.len()
    }

    /// A reference to the top value, or `None` when the stack is empty.
    pub fn top(&self) -> (r: Option<&T>)
        ensures
            self@.len() == 0 ==> r is None,
            self@.len() > 0 ==> (r matches Some(v) && *v == self@.last()),
    {
        if self.stack.len() == 0 {
            None
        } else {
            Some(&self.stack[self.stack.len() - 1])
        }
    }
}

} // verus!
