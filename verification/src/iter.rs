//! Iteration over the elements of an array node, in three ownership modes.
//!
//! Each iterator is built over an array's elements, or over nothing for a
//! node of any other case, so iterating a non-array yields zero elements
//! rather than a fault.  None of them implements a std trait: callers drive
//! them with `next` directly.

use vstd::prelude::*;

verus! {

/// Read-only iteration: yields a reference to each element in order.
pub struct TIterator<'a, T> {
    items: Option<&'a Vec<T>>,
    pos: usize,
}

impl<'a, T> TIterator<'a, T> {
    #[verifier::type_invariant]
    closed spec fn wf(self) -> bool {
        match self.items {
            Some(v) => self.pos <= v@.len(),
            None => true,
        }
    }

    /// The elements still to be yielded, in order.
    pub closed spec fn remaining(self) -> Seq<T> {
        match self.items {
            Some(v) => v@.skip(self.pos as int),
            None => Seq::empty(),
        }
    }

    /// An iterator over all elements of `v`.
    pub(crate) fn over(v: &'a Vec<T>) -> (it: Self)
        ensures
            it.remaining() == v@,
    {
        let it = TIterator { items: Some(v), pos: 0 };
        proof {
            assert(it.remaining() =~= v@);
        }
        it
    }

    /// An iterator that yields nothing.
    pub(crate) fn exhausted() -> (it: Self)
        ensures
            it.remaining() == Seq::<T>::empty(),
    {
        TIterator { items: None, pos: 0 }
    }

    /// The next element, or `None` once every element has been yielded.
    pub fn next(&mut self) -> (r: Option<&'a T>)
        ensures
            old(self).remaining().len() == 0 ==> r is None && final(self).remaining()
                == old(self).remaining(),
            old(self).remaining().len() > 0 ==> r is Some && *r.unwrap()
                == old(self).remaining()[0] && final(self).remaining()
                == old(self).remaining().drop_first(),
    {
        proof {
            use_type_invariant(&*self);
        }
        match self.items {
            None => None,
            Some(v) => {
                if self.pos < v.len() {
                    let i: usize = self.pos;
                    self.pos = i + 1;
                    proof {
                        assert(self.remaining() =~= old(self).remaining().drop_first());
                    }
                    Some(&v[i])
                } else {
                    None
                }
            },
        }
    }
}

/// Consuming iteration: yields each element by value, in order.
pub struct TMoveIterator<T> {
    items: Vec<T>,
}

impl<T> TMoveIterator<T> {
    /// The elements still to be yielded, in order.
    pub closed spec fn remaining(self) -> Seq<T> {
        self.items@
    }

    /// An iterator over all elements of `v`, taking ownership of them.
    pub(crate) fn over(v: Vec<T>) -> (it: Self)
        ensures
            it.remaining() == v@,
    {
        TMoveIterator { items: v }
    }

    /// An iterator that yields nothing.
    pub(crate) fn exhausted() -> (it: Self)
        ensures
            it.remaining() == Seq::<T>::empty(),
    {
        TMoveIterator { items: Vec::new() }
    }

    /// The next element, or `None` once every element has been yielded.
    pub fn next(&mut self) -> (r: Option<T>)
        ensures
            old(self).remaining().len() == 0 ==> r is None && final(self).remaining()
                == old(self).remaining(),
            old(self).remaining().len() > 0 ==> r == Some(old(self).remaining()[0])
                && final(self).remaining() == old(self).remaining().drop_first(),
    {
        if self.items.len() > 0 {
            let e = self.items.remove(0);
            proof {
                assert(self.items@ =~= old(self).remaining().drop_first());
            }
            Some(e)
        } else {
            None
        }
    }
}

/// In-place iteration: yields a mutable reference to each element in order;
/// writes through a yielded reference land directly in the array.
///
/// The elements still to be handed out sit behind `rest`.  What the array
/// will finally hold flows through the prophesied values `final(..)` of the
/// yielded references and of `rest`, so the contracts below speak of the
/// field directly.
pub struct TMutIterator<'a, T> {
    /// The elements still to be yielded; `None` once every element has
    /// been handed out, or when the node iterated over was not an array.
    pub rest: Option<&'a mut [T]>,
}

impl<'a, T> TMutIterator<'a, T> {
    /// The elements still to be yielded, in order, as they stand now.
    pub open spec fn remaining(self) -> Seq<T> {
        match self.rest {
            Some(s) => s@,
            None => Seq::empty(),
        }
    }

    /// An iterator over all elements of the slice, in place.
    pub(crate) fn over(s: &'a mut [T]) -> (it: Self)
        ensures
            it.rest is Some,
            it.remaining() == old(s)@,
            it.rest matches Some(s1) ==> final(s1)@ == final(s)@,
    {
        TMutIterator { rest: Some(s) }
    }

    /// An iterator that yields nothing.
    pub(crate) fn exhausted() -> (it: Self)
        ensures
            it.rest is None,
    {
        TMutIterator { rest: None }
    }

    /// A mutable reference to the next element, or `None` once every
    /// element has been yielded.
    ///
    /// The second clause of each case ties the prophecies together: what
    /// the elements behind the entry state will finally hold is the final
    /// value of the yielded reference followed by what the elements behind
    /// the exit state will finally hold.
    pub fn next(&mut self) -> (r: Option<&'a mut T>)
        ensures
            old(self).remaining().len() == 0 ==> {
                &&& r is None
                &&& final(self).rest is None
                &&& match old(self).rest {
                    Some(s) => final(s)@ == Seq::<T>::empty(),
                    None => true,
                }
            },
            old(self).remaining().len() > 0 ==> {
                &&& r is Some
                &&& *r.unwrap() == old(self).remaining()[0]
                &&& final(self).remaining() == old(self).remaining().drop_first()
                &&& match (old(self).rest, final(self).rest) {
                    (Some(s0), Some(s1)) => final(s0)@ == seq![*final(r.unwrap())] + final(s1)@,
                    _ => false,
                }
            },
    {
        let taken = self.rest.take();
        match taken {
            None => None,
            Some(s) => {
                if s.len() == 0 {
                    None
                } else {
                    let (head, tail) = s.split_at_mut(1);
                    proof {
                        assert(old(self).remaining().drop_first() =~= tail@);
                        assert(head@ =~= seq![old(self).remaining()[0]]);
                    }
                    self.rest = Some(tail);
                    let r = head.first_mut();
                    r
                }
            },
        }
    }
}

} // verus!
