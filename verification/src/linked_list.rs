//! The ordered sequence of grid positions that forms the snake's body.
//!
//! The front is the head and the back is the tail. The abstract value of a
//! sequence is the `Seq` of its elements from front to back. Cloning yields a
//! fully independent copy, which the speculative game exploration relies on.

use vstd::prelude::*;

verus! {

/// An ordered front-and-back accessible sequence of copyable values.
pub struct LinkedList<T: Copy> {
    items: Vec<T>,
}

impl<T: Copy> View for LinkedList<T> {
    type V = Seq<T>;

    closed spec fn view(&self) -> Seq<T> {
        self.items@
    }
}

impl<T: Copy> Clone for LinkedList<T> {
    /// A deep copy: the clone holds the same elements in the same order and
    /// shares no storage with the original.
    fn clone(&self) -> (r: Self)
        ensures
            r@ == self@,
    {
        let mut items: Vec<T> = Vec::new();
        let n = self.items.len();
        for i in 0..n
            invariant
                n == self.items.len(),
                items@ == self.items@.subrange(0, i as int),
        {
            items.push(self.items[i]);
            proof {
                assert(items@ =~= self.items@.subrange(0, i + 1));
            }
        }
        proof {
            assert(items@ =~= self.items@);
        }
        LinkedList { items }
    }
}

impl<T: Copy> LinkedList<T> {
    /// A sequence holding just the given element, or nothing.
    pub fn new(head: Option<T>) -> (r: Self)
        ensures
            (head matches Some(v) ==> r@ == seq![v]),
            (head is None ==> r@ == Seq::<T>::empty()),
    {
        let mut items: Vec<T> = Vec::new();
        match head {
            Some(v) => {
                items.push(v);
                proof {
                    assert(items@ =~= seq![v]);
                }
            },
            None => {},
        }
        LinkedList { items }
    }

    /// How many elements the sequence holds.
    pub fn len(&self) -> (r: usize)
        ensures
            r == self@.len(),
    {
        self.items.len()
    }

    /// The element at the given position, counted from the front.
    pub fn get(&self, i: usize) -> (r: T)
        requires
            i < self@.len(),
        ensures
            r == self@[i as int],
    {
        self.items[i]
    }

    /// The front element (the head), if any.
    pub fn front(&self) -> (r: Option<T>)
        ensures
            (self@.len() == 0 ==> r is None),
            (self@.len() > 0 ==> r == Some(self@[0])),
    {
        if self.items.len() == 0 {
            None
        } else {
            Some(self.items[0])
        }
    }

    /// The back element (the tail), if any.
    pub fn back(&self) -> (r: Option<T>)
        ensures
            (self@.len() == 0 ==> r is None),
            (self@.len() > 0 ==> r == Some(self@.last())),
    {
        if self.items.len() == 0 {
            None
        } else {
            Some(self.items[self.items.len() - 1])
        }
    }

    /// Prepends an element; everything else shifts back by one.
    pub fn push_front(&mut self, value: T)
        ensures
            final(self)@ == seq![value] + old(self)@,
    {
        self.items.insert(0, value);
        proof {
            assert(self.items@ =~= seq![value] + old(self)@);
        }
    }

    /// Appends an element at the back.
    pub fn push_back(&mut self, value: T)
        ensures
            final(self)@ == old(self)@.push(value),
    {
        self.items.push(value);
    }

    /// Removes and returns the back element, but never the only element: on a
    /// sequence of fewer than two elements nothing changes and `None` comes
    /// back.
    pub fn pop_back(&mut self) -> (r: Option<T>)
        ensures
            (old(self)@.len() >= 2 ==> final(self)@ == old(self)@.drop_last() && r == Some(
                old(self)@.last(),
            )),
            (old(self)@.len() < 2 ==> final(self)@ == old(self)@ && r is None),
    {
        if self.items.len() >= 2 {
            self.items.pop()
        } else {
            None
        }
    }

    /// The elements as a vector, front to back.
    pub fn to_vec(&self) -> (r: Vec<T>)
        ensures
            r@ == self@,
    {
        let mut out: Vec<T> = Vec::new();
        let n = self.items.len();
        for i in 0..n
            invariant
                n == self.items.len(),
                out@ == self.items@.subrange(0, i as int),
        {
            out.push(self.items[i]);
            proof {
                assert(out@ =~= self.items@.subrange(0, i + 1));
            }
        }
        proof {
            assert(out@ =~= self.items@);
        }
        out
    }
}

} // verus!
