//! A small helper the iterator library lacks: numbering only the `Ok`
//! items of a row of results, leaving the errors alone.

use vstd::prelude::*;

verus! {

/// How many of the items are `Ok`.
pub open spec fn spec_ok_count<T, E>(items: Seq<Result<T, E>>) -> int
    decreases items.len(),
{
    if items.len() == 0 {
        0
    } else {
        (if items[0] is Ok {
            1int
        } else {
            0int
        }) + spec_ok_count(items.skip(1))
    }
}

/// Steps through a row of results, giving each `Ok` its running index:
/// `Ok(v)` becomes `Ok((i, v))` where `i` counts the `Ok`s seen so far;
/// an `Err` passes through unchanged and consumes no index.
pub struct EnumerateOk<T, E> {
    items: Vec<Result<T, E>>,
    next_index: usize,
}

impl<T, E> EnumerateOk<T, E> {
    /// The results still to be handed out, oldest first.
    pub closed spec fn spec_items(&self) -> Seq<Result<T, E>> {
        self.items@
    }

    /// The index the next `Ok` item gets.
    pub closed spec fn spec_next_index(&self) -> usize {
        self.next_index
    }

    /// Hands out the next result. The index grows by one exactly on `Ok`.
    pub fn next(&mut self) -> (r: Option<Result<(usize, T), E>>)
        requires
            old(self).spec_next_index() + spec_ok_count(old(self).spec_items()) <= usize::MAX,
        ensures
            final(self).spec_items() == (if old(self).spec_items().len() > 0 {
                old(self).spec_items().skip(1)
            } else {
                old(self).spec_items()
            }),
            match r {
                None => {
                    &&& old(self).spec_items().len() == 0
                    &&& final(self).spec_next_index() == old(self).spec_next_index()
                },
                Some(Ok((i, _))) => {
                    &&& old(self).spec_items().len() > 0
                    &&& old(self).spec_items()[0] is Ok
                    &&& i == old(self).spec_next_index()
                    &&& final(self).spec_next_index() == old(self).spec_next_index() + 1
                },
                Some(Err(_)) => {
                    &&& old(self).spec_items().len() > 0
                    &&& old(self).spec_items()[0] is Err
                    &&& final(self).spec_next_index() == old(self).spec_next_index()
                },
            },
            r matches Some(Ok((_, v))) ==> old(self).spec_items()[0] == Ok::<T, E>(v),
            r matches Some(Err(e)) ==> old(self).spec_items()[0] == Err::<T, E>(e),
    {
        if self.items.len() == 0 {
            return None;
        }
        proof {
            assert(spec_ok_count(old(self).spec_items()) >= (if old(self).spec_items()[0]
                is Ok {
                1int
            } else {
                0int
            })) by {
                lemma_ok_count_nonnegative(old(self).spec_items().skip(1));
            }
        }
        let item = self.items.remove(0);
        proof {
            assert(self.items@ =~= old(self).spec_items().skip(1));
        }
        match item {
            Ok(v) => {
                let i = self.next_index;
                self.next_index = self.next_index + 1;
                Some(Ok((i, v)))
            },
            Err(e) => Some(Err(e)),
        }
    }
}

/// A count of matches is never negative.
proof fn lemma_ok_count_nonnegative<T, E>(items: Seq<Result<T, E>>)
    ensures
        spec_ok_count(items) >= 0,
    decreases items.len(),
{
    if items.len() > 0 {
        lemma_ok_count_nonnegative(items.skip(1));
    }
}

/// What the iterator library is missing: `enumerate_ok` over a row of
/// results.
pub trait WhatItertoolsIsMissing<T, E>: Sized {
    fn enumerate_ok(self) -> EnumerateOk<T, E>;
}

impl<T, E> WhatItertoolsIsMissing<T, E> for Vec<Result<T, E>> {
    fn enumerate_ok(self) -> (r: EnumerateOk<T, E>)
        ensures
            r.spec_items() == self@,
            r.spec_next_index() == 0,
    {
        EnumerateOk { items: self, next_index: 0 }
    }
}

} // verus!
