//! A gap buffer: a sequence of elements with a cursor, supporting constant
//! time insertion and removal at the cursor and constant time lookup, at the
//! cost of work proportional to the distance whenever the cursor moves.
//!
//! The backing store is a single block of slots. Slots before and after the
//! gap hold live elements; slots inside the gap are empty. The cursor is the
//! start of the gap, and the gap is slid left or right to follow it.

use vstd::prelude::*;

verus! {

/// A `GapBuffer<T>` is a sequence of elements of type `T` that can insert and
/// remove elements at the current position in constant time. Indexing is also
/// constant time. However, changing the position at which insertion and
/// removal occur takes time proportional to the distance the position is
/// being moved.
///
/// The derived `Debug` form shows the backing slots in raw order, which
/// lists the live elements in logical order with the empty gap slots in
/// between; it is a diagnostic aid, not a stable format.
#[derive(Debug)]
pub struct GapBuffer<T> {
    // Backing store. Slots outside `gap_start .. gap_end` hold the live
    // elements; slots inside that range are empty.
    storage: Vec<Option<T>>,
    // Start of the empty range: the current insertion position.
    gap_start: usize,
    // End (exclusive) of the empty range.
    gap_end: usize,
}

impl<T> GapBuffer<T> {
    /// Total number of slots in the backing store.
    pub closed spec fn spec_capacity(&self) -> int {
        self.storage@.len() as int
    }

    /// The current insertion position: the logical index at which the next
    /// insertion occurs.
    pub closed spec fn spec_position(&self) -> int {
        self.gap_start as int
    }

    /// Number of empty slots.
    closed spec fn spec_gap_len(&self) -> int {
        self.gap_end - self.gap_start
    }

    /// Number of live elements.
    pub closed spec fn spec_len(&self) -> int {
        self.storage@.len() - (self.gap_end - self.gap_start)
    }

    /// The structural invariant: the gap is a well-delimited range of empty
    /// slots, and every slot outside it holds a live element.
    pub closed spec fn well_formed(&self) -> bool {
        &&& self.gap_start <= self.gap_end <= self.storage@.len()
        &&& (forall|i: int| 0 <= i < self.gap_start ==> self.storage@[i] is Some)
        &&& (forall|i: int|
            self.gap_end <= i < self.storage@.len() ==> self.storage@[i] is Some)
        &&& (forall|i: int| self.gap_start <= i < self.gap_end ==> self.storage@[i] is None)
    }
}

impl<T> View for GapBuffer<T> {
    type V = Seq<T>;

    /// The logical content: the live elements in logical order, with the gap
    /// skipped. Logical index `i` maps to slot `i` before the gap and to slot
    /// `i` plus the gap length from the gap onward.
    closed spec fn view(&self) -> Seq<T> {
        Seq::new(
            self.spec_len() as nat,
            |i: int|
                if i < self.gap_start {
                    self.storage@[i].unwrap()
                } else {
                    self.storage@[i + self.gap_end - self.gap_start].unwrap()
                },
        )
    }
}

impl<T> GapBuffer<T> {
    /// Create an empty buffer: no slots, no elements, position zero.
    pub fn new() -> (buf: GapBuffer<T>)
        ensures
            buf.well_formed(),
            buf@ == Seq::<T>::empty(),
            buf.spec_capacity() == 0,
            buf.spec_position() == 0,
    {
        let buf = GapBuffer { storage: Vec::new(), gap_start: 0, gap_end: 0 };
        proof {
            assert(buf@ =~= Seq::<T>::empty());
        }
        buf
    }

    /// Return the number of elements this buffer could hold without growing
    /// its backing store.
    pub fn capacity(&self) -> (c: usize)
        ensures
            c == self.spec_capacity(),
    {
        self.storage.len()
    }

    /// Return the number of elements this buffer currently holds.
    pub fn len(&self) -> (n: usize)
        requires
            self.well_formed(),
        ensures
            n == self.spec_len(),
            n == self@.len(),
    {
        self.storage.len() - (self.gap_end - self.gap_start)
    }

    /// Return the current insertion position.
    pub fn position(&self) -> (p: usize)
        requires
            self.well_formed(),
        ensures
            p == self.spec_position(),
            p <= self@.len(),
    {
        self.gap_start
    }

    /// Return the offset in the backing store of the `index`'th element,
    /// taking the gap into account. The result never lands inside the gap.
    fn index_to_raw(&self, index: usize) -> (raw: usize)
        requires
            self.well_formed(),
            index <= self.spec_len(),
        ensures
            raw == if index < self.spec_position() {
                index as int
            } else {
                index + self.spec_gap_len()
            },
            index < self.spec_len() ==> raw < self.spec_capacity()
                && self.storage@[raw as int] is Some
                && self.storage@[raw as int].unwrap() == self@[index as int],
            index == self.spec_len() ==> raw == self.spec_capacity(),
    {
        if index < self.gap_start {
            index
        } else {
            let gap_len = self.gap_end - self.gap_start;
            let cap = self.storage.len();
            assert(index + gap_len <= cap);
            index + gap_len
        }
    }

    /// Return a reference to the `index`'th element, or `None` if `index` is
    /// out of bounds.
    pub fn get(&self, index: usize) -> (r: Option<&T>)
        requires
            self.well_formed(),
        ensures
            index < self@.len() ==> (r matches Some(e) && *e == self@[index as int]),
            index >= self@.len() ==> r is None,
    {
        if index >= self.len() {
            return None;
        }
        let raw = self.index_to_raw(index);
        self.storage[raw].as_ref()
    }

    /// Slide the gap one slot to the left: the element just before the gap
    /// moves to the last slot of the gap. The logical content is unchanged.
    fn shift_gap_left(&mut self)
        requires
            old(self).well_formed(),
            old(self).spec_position() >= 1,
        ensures
            final(self).well_formed(),
            final(self)@ == old(self)@,
            final(self).spec_position() == old(self).spec_position() - 1,
            final(self).spec_capacity() == old(self).spec_capacity(),
            final(self).spec_gap_len() == old(self).spec_gap_len(),
    {
        if self.gap_start == self.gap_end {
            self.gap_start = self.gap_start - 1;
            self.gap_end = self.gap_end - 1;
        } else {
            let src = self.gap_start - 1;
            let dst = self.gap_end - 1;
            let mut moved: Option<T> = None;
            self.storage.set_and_swap(src, &mut moved);
            self.storage.set_and_swap(dst, &mut moved);
            self.gap_start = self.gap_start - 1;
            self.gap_end = self.gap_end - 1;
        }
        proof {
            assert(self@ =~= old(self)@);
        }
    }

    /// Slide the gap one slot to the right: the element just after the gap
    /// moves to the first slot of the gap. The logical content is unchanged.
    fn shift_gap_right(&mut self)
        requires
            old(self).well_formed(),
            old(self).spec_position() < old(self).spec_len(),
        ensures
            final(self).well_formed(),
            final(self)@ == old(self)@,
            final(self).spec_position() == old(self).spec_position() + 1,
            final(self).spec_capacity() == old(self).spec_capacity(),
            final(self).spec_gap_len() == old(self).spec_gap_len(),
    {
        let cap = self.storage.len();
        assert(self.gap_end < cap);
        if self.gap_start == self.gap_end {
            self.gap_start = self.gap_start + 1;
            self.gap_end = self.gap_end + 1;
        } else {
            let src = self.gap_end;
            let dst = self.gap_start;
            let mut moved: Option<T> = None;
            self.storage.set_and_swap(src, &mut moved);
            self.storage.set_and_swap(dst, &mut moved);
            self.gap_start = self.gap_start + 1;
            self.gap_end = self.gap_end + 1;
        }
        proof {
            assert(self@ =~= old(self)@);
        }
    }

    /// Set the current insertion position to `pos`, sliding the gap until it
    /// starts at `pos`. The logical content is unchanged; only the position
    /// moves. The cost is proportional to the distance moved. A position
    /// beyond the content is a caller error, ruled out by contract rather
    /// than reported at run time: callers must validate bounds themselves
    /// if they want recoverable behaviour.
    pub fn set_position(&mut self, pos: usize)
        requires
            old(self).well_formed(),
            pos <= old(self)@.len(),
        ensures
            final(self).well_formed(),
            final(self)@ == old(self)@,
            final(self).spec_position() == pos,
            final(self).spec_capacity() == old(self).spec_capacity(),
    {
        while self.gap_start > pos
            invariant
                self.well_formed(),
                pos <= self@.len(),
                self@ == old(self)@,
                self.spec_capacity() == old(self).spec_capacity(),
            decreases self.gap_start,
        {
            self.shift_gap_left();
        }
        while self.gap_start < pos
            invariant
                self.well_formed(),
                self.spec_position() <= pos,
                pos <= self@.len(),
                self@ == old(self)@,
                self.spec_capacity() == old(self).spec_capacity(),
            decreases pos - self.gap_start,
        {
            self.shift_gap_right();
        }
    }

    /// Replace the backing store with a fresh one of at least double the
    /// size, with a floor of four slots, moving the elements before the gap
    /// to the front and the elements after the gap to the tail. The logical
    /// content and the position are unchanged, and the gap becomes non-empty.
    fn enlarge_gap(&mut self)
        requires
            old(self).well_formed(),
            old(self).spec_capacity() <= usize::MAX / 2,
        ensures
            final(self).well_formed(),
            final(self)@ == old(self)@,
            final(self).spec_position() == old(self).spec_position(),
            final(self).spec_capacity() == if old(self).spec_capacity() == 0 {
                4int
            } else {
                2 * old(self).spec_capacity()
            },
            final(self).spec_gap_len() > 0,
    {
        let cap = self.storage.len();
        let new_capacity = if cap == 0 { 4 } else { cap * 2 };
        let mut new_storage: Vec<Option<T>> = Vec::with_capacity(new_capacity);
        while new_storage.len() < new_capacity
            invariant
                new_storage@.len() <= new_capacity,
                forall|j: int| 0 <= j < new_storage@.len() ==> new_storage@[j] is None,
            decreases new_capacity - new_storage@.len(),
        {
            new_storage.push(None);
        }

        // Move the elements that fall before the gap.
        let mut i: usize = 0;
        while i < self.gap_start
            invariant
                old(self).well_formed(),
                self.gap_start == old(self).gap_start,
                self.gap_end == old(self).gap_end,
                self.storage@.len() == old(self).storage@.len(),
                cap == old(self).spec_capacity(),
                cap <= new_capacity,
                i <= self.gap_start,
                new_storage@.len() == new_capacity,
                forall|j: int| i <= j < self.storage@.len()
                    ==> self.storage@[j] == old(self).storage@[j],
                forall|j: int| 0 <= j < i ==> new_storage@[j] == old(self).storage@[j],
                forall|j: int| i <= j < new_capacity ==> new_storage@[j] is None,
            decreases self.gap_start - i,
        {
            let mut moved: Option<T> = None;
            self.storage.set_and_swap(i, &mut moved);
            new_storage.set(i, moved);
            i = i + 1;
        }

        // Move the elements that fall after the gap into the tail of the new
        // backing store.
        let after_len = cap - self.gap_end;
        let mut k: usize = 0;
        while k < after_len
            invariant
                old(self).well_formed(),
                self.gap_start == old(self).gap_start,
                self.gap_end == old(self).gap_end,
                self.storage@.len() == old(self).storage@.len(),
                cap == old(self).spec_capacity(),
                cap <= new_capacity,
                after_len == cap - self.gap_end,
                k <= after_len,
                new_storage@.len() == new_capacity,
                forall|j: int| 0 <= j < self.gap_start
                    ==> new_storage@[j] == old(self).storage@[j],
                forall|j: int| self.gap_end + k <= j < self.storage@.len()
                    ==> self.storage@[j] == old(self).storage@[j],
                forall|j: int| new_capacity - after_len <= j < new_capacity - after_len + k
                    ==> #[trigger] new_storage@[j]
                        == old(self).storage@[j + self.gap_end - (new_capacity - after_len)],
                forall|j: int| self.gap_start <= j < new_capacity - after_len
                    ==> new_storage@[j] is None,
                forall|j: int| new_capacity - after_len + k <= j < new_capacity
                    ==> new_storage@[j] is None,
            decreases after_len - k,
        {
            let mut moved: Option<T> = None;
            self.storage.set_and_swap(self.gap_end + k, &mut moved);
            new_storage.set(new_capacity - after_len + k, moved);
            k = k + 1;
        }

        self.storage = new_storage;
        self.gap_end = new_capacity - after_len;
        proof {
            assert(self@ =~= old(self)@);
        }
    }

    /// Insert `elt` at the current insertion position, and leave the
    /// insertion position after it. The gap is empty exactly when the
    /// buffer is full: then the backing store first doubles, with a floor
    /// of four slots; otherwise the capacity is unchanged.
    pub fn insert(&mut self, elt: T)
        requires
            old(self).well_formed(),
            old(self).spec_capacity() <= usize::MAX / 2,
        ensures
            final(self).well_formed(),
            final(self)@ == old(self)@.insert(old(self).spec_position(), elt),
            final(self).spec_position() == old(self).spec_position() + 1,
            final(self)@.len() == old(self)@.len() + 1,
            final(self).spec_capacity() == if old(self)@.len() < old(self).spec_capacity() {
                old(self).spec_capacity()
            } else if old(self).spec_capacity() == 0 {
                4int
            } else {
                2 * old(self).spec_capacity()
            },
            final(self).spec_capacity() == old(self).spec_capacity()
                || final(self).spec_capacity() <= 2 * final(self)@.len() + 2,
    {
        if self.gap_start == self.gap_end {
            self.enlarge_gap();
        }
        self.storage.set(self.gap_start, Some(elt));
        self.gap_start = self.gap_start + 1;
        proof {
            assert(self@ =~= old(self)@.insert(old(self).spec_position(), elt));
        }
    }

    /// Remove and return the element just after the insertion position, or
    /// return `None`, changing nothing, if the insertion position is at the
    /// end of the buffer.
    pub fn remove(&mut self) -> (r: Option<T>)
        requires
            old(self).well_formed(),
        ensures
            final(self).well_formed(),
            final(self).spec_position() == old(self).spec_position(),
            final(self).spec_capacity() == old(self).spec_capacity(),
            old(self).spec_position() == old(self)@.len() ==> r is None
                && final(self)@ == old(self)@,
            old(self).spec_position() < old(self)@.len() ==> (
                r == Some(old(self)@[old(self).spec_position()])
                && final(self)@ == old(self)@.remove(old(self).spec_position())
            ),
    {
        if self.gap_end == self.storage.len() {
            return None;
        }
        let mut taken: Option<T> = None;
        self.storage.set_and_swap(self.gap_end, &mut taken);
        self.gap_end = self.gap_end + 1;
        proof {
            assert(self@ =~= old(self)@.remove(old(self).spec_position()));
        }
        taken
    }

    /// Insert every element of `elements` at the current insertion position,
    /// in order, and leave the insertion position after them. Equivalent to
    /// repeated `insert` calls.
    pub fn insert_iter(&mut self, elements: Vec<T>)
        requires
            old(self).well_formed(),
            old(self).spec_capacity() <= usize::MAX / 2,
            old(self)@.len() + elements@.len() < usize::MAX / 4,
        ensures
            final(self).well_formed(),
            final(self)@ == old(self)@.take(old(self).spec_position()) + elements@
                + old(self)@.skip(old(self).spec_position()),
            final(self).spec_position() == old(self).spec_position() + elements@.len(),
            final(self)@.len() == old(self)@.len() + elements@.len(),
            final(self).spec_capacity() == old(self).spec_capacity()
                || final(self).spec_capacity() <= 2 * final(self)@.len() + 2,
    {
        proof {
            assert(old(self)@ =~= old(self)@.take(old(self).spec_position())
                + elements@.take(0) + old(self)@.skip(old(self).spec_position()));
        }
        for item in it: elements
            invariant
                self.well_formed(),
                it.seq().len() + old(self)@.len() < usize::MAX / 4,
                self@ == old(self)@.take(old(self).spec_position())
                    + it.seq().take(it.index() as int)
                    + old(self)@.skip(old(self).spec_position()),
                self.spec_position() == old(self).spec_position() + it.index(),
                self@.len() == old(self)@.len() + it.index(),
                self.spec_capacity() == old(self).spec_capacity()
                    || self.spec_capacity() <= 2 * self@.len() + 2,
                self.spec_capacity() <= usize::MAX / 2,
        {
            self.insert(item);
            proof {
                assert(self@ =~= old(self)@.take(old(self).spec_position())
                    + it.seq().take(it.index() + 1)
                    + old(self)@.skip(old(self).spec_position()));
            }
        }
    }

    /// Produce a read-only cursor over the logical content, starting at
    /// logical index zero.
    pub fn iter(&self) -> (it: Iter<'_, T>)
        requires
            self.well_formed(),
        ensures
            it.wf(),
            it.spec_buffer() == self,
            it.remaining() == self@,
    {
        Iter { buffer: self, pos: 0 }
    }
}

/// A forward cursor over the logical content of a borrowed `GapBuffer`: each
/// step yields the next live element, gap oblivious, until the end of the
/// content.
pub struct Iter<'a, T> {
    buffer: &'a GapBuffer<T>,
    pos: usize,
}

impl<'a, T> Iter<'a, T> {
    /// The buffer this cursor reads from.
    pub closed spec fn spec_buffer(&self) -> &'a GapBuffer<T> {
        self.buffer
    }

    /// The elements this cursor has not yet yielded.
    pub closed spec fn remaining(&self) -> Seq<T> {
        self.buffer@.skip(self.pos as int)
    }

    /// The cursor reads a well-formed buffer and sits inside its content.
    pub closed spec fn wf(&self) -> bool {
        &&& self.buffer.well_formed()
        &&& self.pos <= self.buffer@.len()
    }

    /// Yield the next element of the logical content, or `None` once every
    /// element has been yielded.
    pub fn next(&mut self) -> (r: Option<&'a T>)
        requires
            old(self).wf(),
        ensures
            final(self).wf(),
            final(self).spec_buffer() == old(self).spec_buffer(),
            old(self).remaining().len() == 0 ==> r is None
                && final(self).remaining() == old(self).remaining(),
            old(self).remaining().len() > 0 ==> (
                r matches Some(e) && *e == old(self).remaining()[0]
                && final(self).remaining() == old(self).remaining().skip(1)
            ),
    {
        if self.pos >= self.buffer.len() {
            None
        } else {
            self.pos = self.pos + 1;
            proof {
                assert(self.buffer@.skip(self.pos as int)
                    =~= old(self).remaining().skip(1));
            }
            self.buffer.get(self.pos - 1)
        }
    }
}

/// Law: filling an empty buffer. Splicing a sequence `s` into empty content
/// at position zero yields exactly `s`, so `insert_iter(s)` on a freshly
/// created buffer leaves logical content `s`, by the contracts of `new` and
/// `insert_iter`.
pub proof fn lemma_insert_iter_into_empty<T>(s: Seq<T>)
    ensures
        Seq::<T>::empty().take(0) + s + Seq::<T>::empty().skip(0) == s,
{
    assert(Seq::<T>::empty().take(0) + s + Seq::<T>::empty().skip(0) =~= s);
}

/// Law: repositioning then inserting splices. For content `a`, a position
/// `p` within it and a sequence `s`, the content that `set_position(p)`
/// followed by `insert_iter(s)` leaves by those two contracts,
/// `a.take(p) + s + a.skip(p)`, is exactly the prefix of `a` up to `p`,
/// then `s`, then the rest of `a`.
pub proof fn lemma_splice_at_position<T>(a: Seq<T>, p: int, s: Seq<T>)
    requires
        0 <= p <= a.len(),
    ensures
        a.take(p) + s + a.skip(p) == a.subrange(0, p) + s + a.subrange(p, a.len() as int),
{
    assert(a.take(p) + s + a.skip(p) =~= a.subrange(0, p) + s + a.subrange(
        p,
        a.len() as int,
    ));
}

/// Law: repeated removal at the front. If a buffer with content `s` has its
/// position at zero, then after `k` calls of `remove` the content is
/// `s.skip(k)`, the next call returns `s[k]`, and the content becomes
/// `s.skip(k + 1)`: the `n` elements come back in their original order, by
/// the contract of `remove`.
pub proof fn lemma_remove_front<T>(s: Seq<T>, k: int)
    requires
        0 <= k < s.len(),
    ensures
        s.skip(k)[0] == s[k],
        s.skip(k).remove(0) == s.skip(k + 1),
{
    assert(s.skip(k).remove(0) =~= s.skip(k + 1));
}

/// Relies on `String::push`: appends the given character to the end of the
/// string.
pub assume_specification[ String::push ](s: &mut String, c: char)
    ensures
        final(s)@ == old(s)@.push(c),
;

impl GapBuffer<char> {
    /// The logical content as text: the live characters in logical order.
    pub fn get_string(&self) -> (text: String)
        requires
            self.well_formed(),
        ensures
            text@ == self@,
    {
        let mut text = String::new();
        let mut i: usize = 0;
        while i < self.len()
            invariant
                self.well_formed(),
                i <= self@.len(),
                text@ == self@.take(i as int),
            decreases self@.len() - i,
        {
            match self.get(i) {
                Some(c) => text.push(*c),
                None => {
                    proof {
                        assert(false);
                    }
                },
            }
            i = i + 1;
            proof {
                assert(text@ =~= self@.take(i as int));
            }
        }
        proof {
            assert(self@.take(self@.len() as int) =~= self@);
        }
        text
    }
}

} // verus!
