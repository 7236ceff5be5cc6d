//! A first-in, first-out queue of characters, kept as two stacks: one for
//! the older elements, eldest last, and one for the younger elements,
//! youngest last. Pushing appends to the younger stack; popping takes from
//! the older stack, refilling it from the younger stack when it runs dry.

use vstd::prelude::*;

verus! {

/// A first-in, first-out queue of characters.
pub struct Queue {
    older: Vec<char>,  // older elements, eldest last.
    younger: Vec<char>,  // younger elements, youngest last.
}

impl Queue {
    /// The older elements, eldest last.
    pub closed spec fn spec_older(&self) -> Seq<char> {
        self.older@
    }

    /// The younger elements, youngest last.
    pub closed spec fn spec_younger(&self) -> Seq<char> {
        self.younger@
    }
}

impl View for Queue {
    type V = Seq<char>;

    /// The queued characters, front of the queue first.
    closed spec fn view(&self) -> Seq<char> {
        self.older@.reverse() + self.younger@
    }
}

impl Queue {
    /// Create an empty queue.
    pub fn new() -> (q: Queue)
        ensures
            q@ == Seq::<char>::empty(),
            q.spec_older() == Seq::<char>::empty(),
            q.spec_younger() == Seq::<char>::empty(),
    {
        let q = Queue { older: Vec::new(), younger: Vec::new() };
        proof {
            assert(q@ =~= Seq::<char>::empty());
        }
        q
    }

    /// Push a character onto the back of the queue.
    pub fn push(&mut self, c: char)
        ensures
            final(self).spec_older() == old(self).spec_older(),
            final(self).spec_younger() == old(self).spec_younger().push(c),
            final(self)@ == old(self)@.push(c),
    {
        self.younger.push(c);
        proof {
            assert(self@ =~= old(self)@.push(c));
        }
    }

    /// Pop a character off the front of the queue. Return `Some(c)` if there
    /// was a character to pop, or `None` if the queue was empty.
    pub fn pop(&mut self) -> (r: Option<char>)
        ensures
            old(self)@.len() == 0 ==> r is None
                && final(self).spec_older() == old(self).spec_older()
                && final(self).spec_younger() == old(self).spec_younger(),
            old(self)@.len() > 0 ==> r == Some(old(self)@[0])
                && final(self)@ == old(self)@.skip(1),
            old(self).spec_older().len() > 0 ==> (
                final(self).spec_older() == old(self).spec_older().drop_last()
                && final(self).spec_younger() == old(self).spec_younger()
            ),
            old(self).spec_older().len() == 0 && old(self).spec_younger().len() > 0 ==> (
                final(self).spec_older() == old(self).spec_younger().skip(1).reverse()
                && final(self).spec_younger() == Seq::<char>::empty()
            ),
    {
        if self.older.is_empty() {
            if self.younger.is_empty() {
                return None;
            }
            // Bring the elements in younger over to older, and put them in
            // the promised order.
            while self.younger.len() > 0
                invariant
                    self.younger@.len() <= old(self).spec_younger().len(),
                    self.younger@ == old(self).spec_younger().take(
                        self.younger@.len() as int,
                    ),
                    self.older@ == old(self).spec_younger().skip(
                        self.younger@.len() as int,
                    ).reverse(),
                decreases self.younger@.len(),
            {
                match self.younger.pop() {
                    Some(c) => self.older.push(c),
                    None => {
                        proof {
                            assert(false);
                        }
                    },
                }
                proof {
                    assert(self.younger@ =~= old(self).spec_younger().take(
                        self.younger@.len() as int,
                    ));
                    assert(self.older@ =~= old(self).spec_younger().skip(
                        self.younger@.len() as int,
                    ).reverse());
                }
            }
        }

        // Now older is guaranteed to have something.
        let r = self.older.pop();
        proof {
            if old(self).spec_older().len() > 0 {
                assert(old(self)@[0] == old(self).spec_older().last());
                assert(self@ =~= old(self)@.skip(1));
            } else if old(self).spec_younger().len() > 0 {
                assert(self.older@ =~= old(self).spec_younger().skip(1).reverse());
                assert(old(self)@[0] == old(self).spec_younger()[0]);
                assert(self@ =~= old(self)@.skip(1));
            }
        }
        r
    }

    /// Report whether the queue holds no characters.
    pub fn is_empty(&self) -> (e: bool)
        ensures
            e <==> self@.len() == 0,
    {
        self.older.is_empty() && self.younger.is_empty()
    }

    /// Take the queue apart into its two stacks: the older elements, eldest
    /// last, and the younger elements, youngest last.
    pub fn split(self) -> (r: (Vec<char>, Vec<char>))
        ensures
            r.0@ == self.spec_older(),
            r.1@ == self.spec_younger(),
            r.0@.reverse() + r.1@ == self@,
    {
        (self.older, self.younger)
    }
}

} // verus!
