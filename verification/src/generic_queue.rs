//! A first-in, first-out queue over any element type, kept as two stacks:
//! one for the older elements, eldest last, and one for the younger
//! elements, youngest last.

use vstd::prelude::*;

verus! {

/// A first-in, first-out queue of elements of type `T`.
pub struct Queue<T> {
    older: Vec<T>,  // older elements, eldest last.
    younger: Vec<T>,  // younger elements, youngest last.
}

impl<T> Queue<T> {
    /// The older elements, eldest last.
    pub closed spec fn spec_older(&self) -> Seq<T> {
        self.older@
    }

    /// The younger elements, youngest last.
    pub closed spec fn spec_younger(&self) -> Seq<T> {
        self.younger@
    }
}

impl<T> View for Queue<T> {
    type V = Seq<T>;

    /// The queued elements, front of the queue first.
    closed spec fn view(&self) -> Seq<T> {
        self.older@.reverse() + self.younger@
    }
}

impl<T> Queue<T> {
    /// Create an empty queue.
    pub fn new() -> (q: Self)
        ensures
            q@ == Seq::<T>::empty(),
            q.spec_older() == Seq::<T>::empty(),
            q.spec_younger() == Seq::<T>::empty(),
    {
        let q = Queue { older: Vec::new(), younger: Vec::new() };
        proof {
            assert(q@ =~= Seq::<T>::empty());
        }
        q
    }

    /// Push an element onto the back of the queue.
    pub fn push(&mut self, t: T)
        ensures
            final(self).spec_older() == old(self).spec_older(),
            final(self).spec_younger() == old(self).spec_younger().push(t),
            final(self)@ == old(self)@.push(t),
    {
        self.younger.push(t);
        proof {
            assert(self@ =~= old(self)@.push(t));
        }
    }

    /// Report whether the queue holds no elements.
    pub fn is_empty(&self) -> (e: bool)
        ensures
            e <==> self@.len() == 0,
    {
        self.older.is_empty() && self.younger.is_empty()
    }

    /// Pop an element off the front of the queue. Return `Some(t)` if there
    /// was an element to pop, or `None` if the queue was empty.
    pub fn pop(&mut self) -> (r: Option<T>)
        ensures
            old(self)@.len() == 0 ==> r is None
                && final(self).spec_older() == old(self).spec_older()
                && final(self).spec_younger() == old(self).spec_younger(),
            old(self)@.len() > 0 ==> r == Some(old(self)@[0])
                && final(self)@ == old(self)@.skip(1),
            old(self).spec_older().len() > 0 ==> (
                final(self).spec_older() == old(self).spec_older().drop_last()
                && final(self).spec_younger() == old(self).spec_younger()
            ),
            old(self).spec_older().len() == 0 && old(self).spec_younger().len() > 0 ==> (
                final(self).spec_older() == old(self).spec_younger().skip(1).reverse()
                && final(self).spec_younger() == Seq::<T>::empty()
            ),
    {
        if self.older.is_empty() {
            if self.younger.is_empty() {
                return None;
            }
            // Bring the elements in younger over to older, and put them in
            // the promised order.
            while self.younger.len() > 0
                invariant
                    self.younger@.len() <= old(self).spec_younger().len(),
                    self.younger@ == old(self).spec_younger().take(
                        self.younger@.len() as int,
                    ),
                    self.older@ == old(self).spec_younger().skip(
                        self.younger@.len() as int,
                    ).reverse(),
                decreases self.younger@.len(),
            {
                match self.younger.pop() {
                    Some(t) => self.older.push(t),
                    None => {
                        proof {
                            assert(false);
                        }
                    },
                }
                proof {
                    assert(self.younger@ =~= old(self).spec_younger().take(
                        self.younger@.len() as int,
                    ));
                    assert(self.older@ =~= old(self).spec_younger().skip(
                        self.younger@.len() as int,
                    ).reverse());
                }
            }
        }

        // Now older is guaranteed to have something.
        let r = self.older.pop();
        proof {
            if old(self).spec_older().len() > 0 {
                assert(old(self)@[0] == old(self).spec_older().last());
                assert(self@ =~= old(self)@.skip(1));
            } else if old(self).spec_younger().len() > 0 {
                assert(self.older@ =~= old(self).spec_younger().skip(1).reverse());
                assert(old(self)@[0] == old(self).spec_younger()[0]);
                assert(self@ =~= old(self)@.skip(1));
            }
        }
        r
    }

    /// Take the queue apart into its two stacks: the older elements, eldest
    /// last, and the younger elements, youngest last.
    pub fn split(self) -> (r: (Vec<T>, Vec<T>))
        ensures
            r.0@ == self.spec_older(),
            r.1@ == self.spec_younger(),
            r.0@.reverse() + r.1@ == self@,
    {
        (self.older, self.younger)
    }
}

} // verus!
