//! An exact-size iterator over a fixed list of owned values.
//!
//! The values are handed out by move, in order, exactly once each; whatever
//! has not been yielded is still owned by the iterator and is released with
//! it when it is discarded.

use vstd::prelude::*;

verus! {

/// An iterator over a fixed list of owned values.
///
/// The list is given once, at construction; its length never changes.
/// A cursor separates the values already yielded from the values still
/// owned: everything before the cursor has been moved out to a caller,
/// everything from the cursor on is still held, in its original order.
pub struct FixedOwnedIterator<T> {
    elems: Vec<T>,
    consumed: usize,
    full: Ghost<Seq<T>>,
}

impl<T> FixedOwnedIterator<T> {
    /// The complete list of values the iterator was constructed from.
    pub closed spec fn full_seq(self) -> Seq<T> {
        self.full@
    }

    /// How many values have been yielded so far.
    pub closed spec fn consumed_count(self) -> nat {
        self.consumed as nat
    }

    /// The values not yet yielded, in order.
    pub closed spec fn remaining(self) -> Seq<T> {
        self.elems@
    }

    /// The total number of values, consumed or not.
    pub open spec fn total(self) -> nat {
        self.full_seq().len()
    }

    /// The cursor never passes the end, and what remains is exactly the
    /// tail of the original list that starts at the cursor.
    pub closed spec fn wf(self) -> bool {
        &&& self.full@.len() == self.consumed + self.elems@.len()
        &&& self.elems@ == self.full@.skip(self.consumed as int)
        &&& self.full@.len() <= usize::MAX
    }

    /// Builds an iterator owning exactly the given values, in the given
    /// order, with nothing consumed yet.
    pub fn construct(values: Vec<T>) -> (it: Self)
        ensures
            it.wf(),
            it.full_seq() == values@,
            it.remaining() == values@,
            it.consumed_count() == 0,
    {
        let ghost full = values@;
        proof {
            assert(values@ =~= full.skip(0));
            assert(values.len() == values@.len());
        }
        FixedOwnedIterator { elems: values, consumed: 0, full: Ghost(full) }
    }

    /// Yields the next value by move, or nothing once every value has been
    /// handed out. Once exhausted, it stays exhausted and is left unchanged.
    pub fn next(&mut self) -> (r: Option<T>)
        requires
            old(self).wf(),
        ensures
            final(self).wf(),
            final(self).full_seq() == old(self).full_seq(),
            old(self).remaining().len() == 0 ==> r is None && *final(self) == *old(self),
            old(self).remaining().len() > 0 ==> {
                &&& r == Some(old(self).remaining()[0])
                &&& r == Some(old(self).full_seq()[old(self).consumed_count() as int])
                &&& final(self).consumed_count() == old(self).consumed_count() + 1
                &&& final(self).remaining() == old(self).remaining().skip(1)
            },
    {
        if self.elems.is_empty() {
            None
        } else {
            let value = self.elems.remove(0);
            self.consumed = self.consumed + 1;
            proof {
                assert(self.elems@ =~= self.full@.skip(self.consumed as int));
                assert(old(self).remaining().skip(1) =~= self.elems@);
            }
            Some(value)
        }
    }

    /// The total length of the iterator, unaffected by consumption.
    pub fn len(&self) -> (n: usize)
        requires
            self.wf(),
        ensures
            n == self.total(),
    {
        self.consumed + self.elems.len()
    }

    /// How many values have been yielded so far.
    pub fn consumed(&self) -> (n: usize)
        ensures
            n == self.consumed_count(),
    {
        self.consumed
    }

    /// How many values are still to come.
    pub fn remaining_count(&self) -> (n: usize)
        ensures
            n == self.remaining().len(),
    {
        self.elems.len()
    }

    /// A read-only view of the values not yet yielded, in order.
    pub fn rest(&self) -> (s: &[T])
        ensures
            s@ == self.remaining(),
    {
        self.elems.as_slice()
    }

    /// The exact size bounds of what is still to come: both the lower and
    /// the upper bound equal the number of values not yet yielded.
    pub fn size_hint(&self) -> (r: (usize, Option<usize>))
        ensures
            r.0 == self.remaining().len(),
            r.1 == Some(r.0),
    {
        let n = self.elems.len();
        (n, Some(n))
    }
}

/// Law: at every point of the traversal, the values still to come are
/// exactly the tail of the original list that follows the consumed prefix,
/// element for element; in particular their count is the total minus the
/// count of values already yielded.
pub proof fn lemma_remaining_is_original_tail<T>(it: FixedOwnedIterator<T>)
    requires
        it.wf(),
    ensures
        it.consumed_count() <= it.total(),
        it.remaining().len() == it.total() - it.consumed_count(),
        forall|j: int|
            0 <= j < it.remaining().len() ==> it.remaining()[j] == it.full_seq()[it.consumed_count()
                + j],
{
}

} // verus!
