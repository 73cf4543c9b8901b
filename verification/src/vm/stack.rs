//! The operand stack: a bounded stack of numbers.
use super::error::StackError;
use vstd::prelude::*;

verus! {

/// A stack of numbers that holds at most `capacity()` of them.
#[derive(Debug, Clone)]
pub struct Stack {
    data: Vec<u64>,
    max_size: usize,
}

impl Stack {
    /// The numbers on the stack, the top one last.
    pub closed spec fn items(&self) -> Seq<u64> {
        self.data@
    }

    /// The number of items the stack can hold.
    pub closed spec fn capacity(&self) -> nat {
        self.max_size as nat
    }

    /// The stack holds no more than it can.
    pub open spec fn wf(&self) -> bool {
        self.items().len() <= self.capacity()
    }

    /// An empty stack that holds at most `max_size` numbers.
    pub fn with_size(max_size: usize) -> (stack: Self)
        ensures
            stack.wf(),
            stack.items() == Seq::<u64>::empty(),
            stack.capacity() == max_size,
    {
        Stack { data: Vec::new(), max_size }
    }

    /// Puts a number on top; a full stack refuses.
    pub fn push(&mut self, value: u64) -> (res: Result<(), StackError>)
        requires
            old(self).wf(),
        ensures
            final(self).wf(),
            final(self).capacity() == old(self).capacity(),
            old(self).items().len() < old(self).capacity() ==> res.is_ok() && final(self).items()
                == old(self).items().push(value),
            old(self).items().len() >= old(self).capacity() ==> res == Err::<(), StackError>(
                StackError::Overflow,
            ) && final(self).items() == old(self).items(),
    {
        if self.data.len() >= self.max_size {
            return Err(StackError::Overflow);
        }
        self.data.push(value);
        Ok(())
    }

    /// Takes the top number off; an empty stack has none.
    pub fn pop(&mut self) -> (res: Result<u64, StackError>)
        requires
            old(self).wf(),
        ensures
            final(self).wf(),
            final(self).capacity() == old(self).capacity(),
            old(self).items().len() > 0 ==> res == Ok::<u64, StackError>(old(self).items().last())
                && final(self).items() == old(self).items().drop_last(),
            old(self).items().len() == 0 ==> res == Err::<u64, StackError>(StackError::Underflow)
                && final(self).items() == old(self).items(),
    {
        match self.data.pop() {
            Some(value) => Ok(value),
            None => Err(StackError::Underflow),
        }
    }

    /// Puts a copy of the top number on top: an empty stack has nothing to
    /// copy, a full one no room.
    pub fn dup(&mut self) -> (res: Result<(), StackError>)
        requires
            old(self).wf(),
        ensures
            final(self).wf(),
            final(self).capacity() == old(self).capacity(),
            old(self).items().len() == 0 ==> res == Err::<(), StackError>(StackError::Underflow),
            0 < old(self).items().len() && old(self).items().len() >= old(self).capacity() ==> res
                == Err::<(), StackError>(StackError::Overflow),
            0 < old(self).items().len() < old(self).capacity() ==> res.is_ok()
                && final(self).items() == old(self).items().push(old(self).items().last()),
            res.is_err() ==> final(self).items() == old(self).items(),
    {
        if self.data.len() == 0 {
            return Err(StackError::Underflow);
        }
        if self.data.len() >= self.max_size {
            return Err(StackError::Overflow);
        }
        let value = self.data[self.data.len() - 1];
        self.data.push(value);
        Ok(())
    }

    /// Exchanges the two top numbers; a stack of fewer has nothing to exchange.
    pub fn swap(&mut self) -> (res: Result<(), StackError>)
        requires
            old(self).wf(),
        ensures
            final(self).wf(),
            final(self).capacity() == old(self).capacity(),
            old(self).items().len() < 2 ==> res == Err::<(), StackError>(StackError::Underflow)
                && final(self).items() == old(self).items(),
            old(self).items().len() >= 2 ==> res.is_ok() && final(self).items() == swapped(
                old(self).items(),
            ),
    {
        let len = self.data.len();
        if len < 2 {
            return Err(StackError::Underflow);
        }
        let top = self.data[len - 1];
        let below = self.data[len - 2];
        self.data.set(len - 1, below);
        self.data.set(len - 2, top);
        Ok(())
    }

    /// The numbers on the stack, the top one last.
    pub fn view(&self) -> (items: &Vec<u64>)
        ensures
            items@ == self.items(),
    {
        &self.data
    }

    /// The number of items on the stack.
    pub fn len(&self) -> (n: usize)
        ensures
            n == self.items().len(),
    {
        self.data.len()
    }
}

/// The stack with its two top numbers exchanged.
pub open spec fn swapped(items: Seq<u64>) -> Seq<u64>
    recommends
        items.len() >= 2,
{
    items.update(items.len() - 1, items[items.len() - 2]).update(
        items.len() - 2,
        items[items.len() - 1],
    )
}

} // verus!
