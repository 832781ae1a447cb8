//! A union of zero, one, or many values, iterable uniformly.
//!
//! This exists to avoid a heap-allocated collection when a computation
//! naturally produces zero or one results.

use vstd::prelude::*;

verus! {

/// A value that is nothing, a single owned `T`, or a collection of `T`.
#[derive(Debug, Clone)]
pub enum MaybeMany<T, U> {
    /// No value at all.
    Empty,
    /// Exactly one owned value.
    One(T),
    /// An owned collection of values.
    Many(U),
}

impl<T, U> MaybeMany<T, U> {
    /// The size when the variant alone decides it: exactly zero for
    /// `Empty`, exactly one for `One`, and unknown for `Many`.
    pub fn size_hint(&self) -> (r: Option<usize>)
        ensures
            r == match *self {
                MaybeMany::Empty => Some(0usize),
                MaybeMany::One(_) => Some(1usize),
                MaybeMany::Many(_) => None::<usize>,
            },
    {
        match self {
            MaybeMany::Empty => Some(0),
            MaybeMany::One(_) => Some(1),
            MaybeMany::Many(_) => None,
        }
    }

    /// Does this hold no value?
    pub fn is_none(&self) -> (r: bool)
        ensures
            r <==> *self is Empty,
    {
        match self {
            MaybeMany::Empty => true,
            _ => false,
        }
    }

    /// Does this hold exactly one value?
    pub fn is_single(&self) -> (r: bool)
        ensures
            r <==> *self is One,
    {
        match self {
            MaybeMany::One(_) => true,
            _ => false,
        }
    }

    /// Does this hold a collection?
    pub fn is_many(&self) -> (r: bool)
        ensures
            r <==> *self is Many,
    {
        match self {
            MaybeMany::Many(_) => true,
            _ => false,
        }
    }

    /// Applies `fun` to the collection of a `Many`; the other variants
    /// pass through unchanged.
    pub fn map_many<A, F: FnOnce(U) -> A>(self, fun: F) -> (r: MaybeMany<T, A>)
        requires
            self matches MaybeMany::Many(m) ==> call_requires(fun, (m,)),
        ensures
            self is Empty ==> r is Empty,
            self matches MaybeMany::One(t) ==> r == MaybeMany::<T, A>::One(t),
            self matches MaybeMany::Many(m) ==> (r matches MaybeMany::Many(a) && call_ensures(
                fun,
                (m,),
                a,
            )),
    {
        match self {
            MaybeMany::Empty => MaybeMany::Empty,
            MaybeMany::One(t) => MaybeMany::One(t),
            MaybeMany::Many(m) => MaybeMany::Many(fun(m)),
        }
    }

    /// Applies `fun` to the value of a `One`; the other variants pass
    /// through unchanged.
    pub fn map_one<F: FnOnce(T) -> T>(self, fun: F) -> (r: MaybeMany<T, U>)
        requires
            self matches MaybeMany::One(t) ==> call_requires(fun, (t,)),
        ensures
            self is Empty ==> r is Empty,
            self matches MaybeMany::One(t) ==> (r matches MaybeMany::One(t2) && call_ensures(
                fun,
                (t,),
                t2,
            )),
            self matches MaybeMany::Many(m) ==> r == MaybeMany::<T, U>::Many(m),
    {
        match self {
            MaybeMany::Empty => MaybeMany::Empty,
            MaybeMany::One(t) => MaybeMany::One(fun(t)),
            MaybeMany::Many(m) => MaybeMany::Many(m),
        }
    }

    /// Applies `one` to the value of a `One` and `many` to the collection
    /// of a `Many`; `Empty` stays `Empty`.
    pub fn map<A, B, Fo: FnOnce(T) -> A, Fm: FnOnce(U) -> B>(self, one: Fo, many: Fm) -> (r:
        MaybeMany<A, B>)
        requires
            self matches MaybeMany::One(t) ==> call_requires(one, (t,)),
            self matches MaybeMany::Many(m) ==> call_requires(many, (m,)),
        ensures
            self is Empty ==> r is Empty,
            self matches MaybeMany::One(t) ==> (r matches MaybeMany::One(a) && call_ensures(
                one,
                (t,),
                a,
            )),
            self matches MaybeMany::Many(m) ==> (r matches MaybeMany::Many(b) && call_ensures(
                many,
                (m,),
                b,
            )),
    {
        match self {
            MaybeMany::Empty => MaybeMany::Empty,
            MaybeMany::One(t) => MaybeMany::One(one(t)),
            MaybeMany::Many(m) => MaybeMany::Many(many(m)),
        }
    }

    /// Moves the content out, leaving `Empty` behind, and returns the
    /// prior content unchanged. A second call in a row returns `Empty`.
    pub fn take(&mut self) -> (r: Self)
        ensures
            r == *old(self),
            *final(self) is Empty,
    {
        let mut out = MaybeMany::Empty;
        core::mem::swap(self, &mut out);
        out
    }

    /// Wraps this whole value as the collection of a new `Many`.
    pub fn into_many(self) -> (r: MaybeMany<T, Self>)
        ensures
            r == MaybeMany::<T, Self>::Many(self),
    {
        MaybeMany::Many(self)
    }

    /// Promotes into the `Many` variant: a `One` through `trans`, a `Many`
    /// through the collection conversion `W::from`; `Empty` stays `Empty`.
    pub fn map_into_many<V, W: From<U>, F: FnOnce(T) -> W>(self, trans: F) -> (r: MaybeMany<V, W>)
        requires
            self matches MaybeMany::One(t) ==> call_requires(trans, (t,)),
        ensures
            self is Empty ==> r is Empty,
            self matches MaybeMany::One(t) ==> (r matches MaybeMany::Many(w) && call_ensures(
                trans,
                (t,),
                w,
            )),
            self matches MaybeMany::Many(m) ==> (r matches MaybeMany::Many(w) && call_ensures(
                W::from,
                (m,),
                w,
            )),
    {
        match self {
            MaybeMany::Empty => MaybeMany::Empty,
            MaybeMany::One(t) => MaybeMany::Many(trans(t)),
            MaybeMany::Many(m) => MaybeMany::Many(W::from(m)),
        }
    }
}

impl<T> MaybeMany<T, Vec<T>> {
    /// The values held, in order: none for `Empty`, the one value for
    /// `One`, the collection's values for `Many`.
    pub open spec fn elems(self) -> Seq<T> {
        match self {
            MaybeMany::Empty => Seq::<T>::empty(),
            MaybeMany::One(t) => seq![t],
            MaybeMany::Many(v) => v@,
        }
    }

    /// Builds a `One` holding exactly the given value.
    pub fn one(value: T) -> (r: Self)
        ensures
            r == MaybeMany::<T, Vec<T>>::One(value),
    {
        MaybeMany::One(value)
    }

    /// Builds an `Empty`, which yields no value ever.
    pub fn none() -> (r: Self)
        ensures
            r == MaybeMany::<T, Vec<T>>::Empty,
    {
        MaybeMany::Empty
    }

    /// Turns a `One` into a `Many` holding `trans` of its value; anything
    /// else becomes `Empty`.
    pub fn map_single_into_many<V, W, F: FnOnce(T) -> W>(self, trans: F) -> (r: MaybeMany<V, W>)
        requires
            self matches MaybeMany::One(t) ==> call_requires(trans, (t,)),
        ensures
            self matches MaybeMany::One(t) ==> (r matches MaybeMany::Many(w) && call_ensures(
                trans,
                (t,),
                w,
            )),
            !(self is One) ==> r is Empty,
    {
        match self {
            MaybeMany::One(t) => MaybeMany::Many(trans(t)),
            _ => MaybeMany::Empty,
        }
    }

    /// Re-types the collection variant away: a `One` stays `One`, anything
    /// else becomes `Empty`.
    pub fn map_none<V>(self) -> (r: MaybeMany<T, V>)
        ensures
            self matches MaybeMany::One(t) ==> r == MaybeMany::<T, V>::One(t),
            !(self is One) ==> r is Empty,
    {
        match self {
            MaybeMany::One(t) => MaybeMany::One(t),
            _ => MaybeMany::Empty,
        }
    }

    /// The uniform iterator: it yields exactly the held values, in order —
    /// nothing for `Empty`, the one value for `One`, the collection's
    /// values for `Many`.
    pub fn into_iter(self) -> (it: MaybeManyIter<T>)
        ensures
            it.remaining() == self.elems(),
            self is Empty ==> it is Empty,
            self is One ==> it is One,
            self is Many ==> it is Many,
    {
        match self {
            MaybeMany::Empty => MaybeManyIter::Empty,
            MaybeMany::One(t) => MaybeManyIter::One(Some(t)),
            MaybeMany::Many(v) => MaybeManyIter::Many(v),
        }
    }

    /// Chains the held values with the other values: the result is always
    /// a `Many` holding this value's elements followed by `other`'s, in
    /// order.
    pub fn chain(self, other: Vec<T>) -> (r: MaybeMany<T, Vec<T>>)
        ensures
            r matches MaybeMany::Many(v) && v@ == self.elems() + other@,
    {
        let mut v: Vec<T> = self.into_iter().collect_remaining();
        let mut rest = other;
        v.append(&mut rest);
        MaybeMany::Many(v)
    }

    /// Hides the concrete shape behind a heap-held uniform iterator; the
    /// result is a `Many` whose iterator yields exactly the held values,
    /// in order.
    pub fn boxed(self) -> (r: MaybeMany<T, Box<MaybeManyIter<T>>>)
        ensures
            r matches MaybeMany::Many(b) && b.remaining() == self.elems(),
    {
        MaybeMany::Many(Box::new(self.into_iter()))
    }
}

impl<T> MaybeMany<T, Box<MaybeManyIter<T>>> {
    /// The values held, in order: none for `Empty`, the one value for
    /// `One`, what the boxed iterator still yields for `Many`.
    pub open spec fn elems(self) -> Seq<T> {
        match self {
            MaybeMany::Empty => Seq::<T>::empty(),
            MaybeMany::One(t) => seq![t],
            MaybeMany::Many(b) => b.remaining(),
        }
    }

    /// The uniform iterator over the held values, in order.
    pub fn into_iter(self) -> (it: MaybeManyIter<T>)
        ensures
            it.remaining() == self.elems(),
    {
        match self {
            MaybeMany::Empty => MaybeManyIter::Empty,
            MaybeMany::One(t) => MaybeManyIter::One(Some(t)),
            MaybeMany::Many(b) => *b,
        }
    }

    /// Chains the held values with the other values: the result is always
    /// a `Many` holding this value's elements followed by `other`'s, in
    /// order.
    pub fn chain(self, other: Vec<T>) -> (r: MaybeMany<T, Vec<T>>)
        ensures
            r matches MaybeMany::Many(v) && v@ == self.elems() + other@,
    {
        let mut v: Vec<T> = self.into_iter().collect_remaining();
        let mut rest = other;
        v.append(&mut rest);
        MaybeMany::Many(v)
    }
}

/// The uniform iterator over a [`MaybeMany`]: it yields each held value
/// once, in order, and once exhausted it stays exhausted.
#[derive(Debug, Clone)]
#[non_exhaustive]
pub enum MaybeManyIter<T> {
    /// Nothing to yield.
    Empty,
    /// At most one value left to yield.
    One(Option<T>),
    /// The values left to yield, in order.
    Many(Vec<T>),
}

impl<T> MaybeManyIter<T> {
    /// The values still to be yielded, in order.
    pub open spec fn remaining(self) -> Seq<T> {
        match self {
            MaybeManyIter::Empty => Seq::<T>::empty(),
            MaybeManyIter::One(opt) => match opt {
                Some(t) => seq![t],
                None => Seq::<T>::empty(),
            },
            MaybeManyIter::Many(v) => v@,
        }
    }

    /// Yields the next value by move, or nothing once every value has been
    /// yielded. Once exhausted, it stays exhausted and is left unchanged.
    pub fn next(&mut self) -> (r: Option<T>)
        ensures
            old(self).remaining().len() == 0 ==> r is None && *final(self) == *old(self),
            old(self).remaining().len() > 0 ==> {
                &&& r == Some(old(self).remaining()[0])
                &&& final(self).remaining() == old(self).remaining().skip(1)
            },
    {
        match self {
            MaybeManyIter::Empty => None,
            MaybeManyIter::One(opt) => {
                let r = opt.take();
                proof {
                    if old(self).remaining().len() > 0 {
                        assert(old(self).remaining().skip(1) =~= Seq::<T>::empty());
                    }
                }
                r
            },
            MaybeManyIter::Many(v) => {
                if v.is_empty() {
                    None
                } else {
                    let value = v.remove(0);
                    proof {
                        assert(old(self).remaining().skip(1) =~= v@);
                    }
                    Some(value)
                }
            },
        }
    }

    /// The exact size bounds of what is still to come: both the lower and
    /// the upper bound equal the number of values not yet yielded.
    pub fn size_hint(&self) -> (r: (usize, Option<usize>))
        ensures
            r.0 == self.remaining().len(),
            r.1 == Some(r.0),
    {
        match self {
            MaybeManyIter::Empty => (0, Some(0)),
            MaybeManyIter::One(opt) => {
                if opt.is_some() {
                    (1, Some(1))
                } else {
                    (0, Some(0))
                }
            },
            MaybeManyIter::Many(v) => {
                let n = v.len();
                (n, Some(n))
            },
        }
    }

    /// Drains what is still to come into a collection, in order.
    pub fn collect_remaining(self) -> (v: Vec<T>)
        ensures
            v@ == self.remaining(),
    {
        match self {
            MaybeManyIter::Empty => Vec::new(),
            MaybeManyIter::One(opt) => {
                match opt {
                    Some(t) => {
                        let mut v = Vec::new();
                        v.push(t);
                        proof {
                            assert(v@ =~= seq![t]);
                        }
                        v
                    },
                    None => Vec::new(),
                }
            },
            MaybeManyIter::Many(v) => v,
        }
    }
}

} // verus!
