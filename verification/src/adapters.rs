//! Composition adapters: paginators that wrap one or two other paginators
//! and redefine forward and backward movement in terms of the wrapped
//! cursor(s), without touching the underlying sequences themselves.

use vstd::prelude::*;

use crate::Paginator;

verus! {

/// Adapter created by [`Enumerate::new`]: yields each element of the
/// wrapped paginator tagged with its zero-based position.
///
/// The tag always equals the cursor's position, so for positions reached
/// purely by forward steps it counts the successful forward steps since
/// creation, and a backward step returns exactly the tag the matching
/// forward step produced.
pub struct Enumerate<A> {
    index: usize,
    inner: A,
}

impl<A: Paginator> Enumerate<A> {
    /// Wraps a paginator standing at its logical start, tagging every
    /// yielded element with its position.
    ///
    /// The wrapped cursor must be at position 0 so that the tag counter,
    /// which starts at 0, tracks the position exactly. The sequence bound
    /// keeps the counter within `usize`.
    pub fn new(inner: A) -> (r: Self)
        requires
            inner.wf(),
            inner.pos() == 0,
            inner.elems().len() <= usize::MAX,
        ensures
            r.wf(),
            r.pos() == 0,
            r.elems().len() == inner.elems().len(),
            forall|i: int|
                0 <= i < inner.elems().len() ==> r.elems()[i] == (i as usize, inner.elems()[i]),
    {
        Enumerate { index: 0, inner }
    }
}

impl<A: Paginator> Paginator for Enumerate<A> {
    type Item = (usize, A::Item);

    closed spec fn wf(&self) -> bool {
        &&& self.inner.wf()
        &&& self.inner.pos() == self.index as int
        &&& self.inner.elems().len() <= usize::MAX
    }

    closed spec fn elems(&self) -> Seq<(usize, A::Item)> {
        Seq::new(self.inner.elems().len(), |i: int| (i as usize, self.inner.elems()[i]))
    }

    closed spec fn pos(&self) -> int {
        self.inner.pos()
    }

    proof fn lemma_pos_in_range(&self) {
        self.inner.lemma_pos_in_range();
    }

    fn next(&mut self) -> (r: Option<(usize, A::Item)>) {
        proof {
            self.inner.lemma_pos_in_range();
        }
        match self.inner.next() {
            Some(element) => {
                let tag: usize = self.index;
                self.index = self.index + 1;
                Some((tag, element))
            },
            None => None,
        }
    }

    fn previous(&mut self) -> (r: Option<(usize, A::Item)>) {
        proof {
            self.inner.lemma_pos_in_range();
        }
        match self.inner.previous() {
            Some(element) => {
                self.index = self.index - 1;
                Some((self.index, element))
            },
            None => None,
        }
    }
}

/// The exec closure `f` is pinned down by the mapping `m`: every value it
/// can return on input `x` is `m(x)`.
pub open spec fn agrees_with<T, O, F: Fn(T) -> O>(f: F, m: spec_fn(T) -> O) -> bool {
    forall|x: T, y: O| #[trigger] call_ensures(f, (x,), y) ==> y == m(x)
}

/// Adapter created by [`Transform::new`]: applies a pure mapping function
/// to every element the wrapped paginator yields, in either direction.
///
/// The mapping the closure computes is captured as the ghost function
/// `mapping()`, so the adapter's observed sequence is the wrapped cursor's
/// sequence with `mapping()` applied pointwise.
pub struct Transform<A: Paginator, F, O> {
    inner: A,
    f: F,
    mapper: Ghost<spec_fn(A::Item) -> O>,
}

impl<A: Paginator, F: Fn(A::Item) -> O, O> Transform<A, F, O> {
    /// The mapping this adapter applies, as a ghost function. Every value
    /// the closure can return agrees with it.
    pub closed spec fn mapping(&self) -> spec_fn(A::Item) -> O {
        self.mapper@
    }

    /// Wraps a paginator so that every yielded element passes through `f`.
    ///
    /// The closure must accept every element of the wrapped sequence and
    /// must be deterministic: some single mapping accounts for all of its
    /// possible return values. End signals pass through unchanged and the
    /// wrapped cursor's position is kept.
    pub fn new(inner: A, f: F) -> (r: Self)
        requires
            inner.wf(),
            forall|i: int|
                0 <= i < inner.elems().len() ==> call_requires(f, (inner.elems()[i],)),
            exists|m: spec_fn(A::Item) -> O| agrees_with(f, m),
        ensures
            r.wf(),
            r.pos() == inner.pos(),
            agrees_with(f, r.mapping()),
            r.elems() == inner.elems().map_values(r.mapping()),
    {
        let ghost m = choose|m: spec_fn(A::Item) -> O| agrees_with(f, m);
        Transform { inner, f, mapper: Ghost(m) }
    }

    /// Returns the next element of the wrapped cursor with the mapping
    /// applied, or passes the end signal through. Same contract as
    /// [`Paginator::next`].
    pub fn next(&mut self) -> (r: Option<O>)
        requires
            old(self).wf(),
        ensures
            final(self).wf(),
            final(self).elems() == old(self).elems(),
            old(self).pos() < old(self).elems().len() ==> {
                &&& r == Some(old(self).elems()[old(self).pos()])
                &&& final(self).pos() == old(self).pos() + 1
            },
            old(self).pos() >= old(self).elems().len() ==> {
                &&& r is None
                &&& final(self).pos() == old(self).pos()
            },
    {
        proof {
            self.inner.lemma_pos_in_range();
        }
        match self.inner.next() {
            Some(element) => Some((self.f)(element)),
            None => None,
        }
    }

    /// Returns the element most recently stepped over, with the mapping
    /// applied, or passes the end signal through. Same contract as
    /// [`Paginator::previous`].
    pub fn previous(&mut self) -> (r: Option<O>)
        requires
            old(self).wf(),
        ensures
            final(self).wf(),
            final(self).elems() == old(self).elems(),
            old(self).pos() > 0 ==> {
                &&& r == Some(old(self).elems()[old(self).pos() - 1])
                &&& final(self).pos() == old(self).pos() - 1
            },
            old(self).pos() <= 0 ==> {
                &&& r is None
                &&& final(self).pos() == old(self).pos()
            },
    {
        proof {
            self.inner.lemma_pos_in_range();
        }
        match self.inner.previous() {
            Some(element) => Some((self.f)(element)),
            None => None,
        }
    }
}

impl<A: Paginator, F: Fn(A::Item) -> O, O> Paginator for Transform<A, F, O> {
    type Item = O;

    closed spec fn wf(&self) -> bool {
        &&& self.inner.wf()
        &&& forall|i: int|
            0 <= i < self.inner.elems().len() ==> call_requires(
                self.f,
                (self.inner.elems()[i],),
            )
        &&& agrees_with(self.f, self.mapper@)
    }

    closed spec fn elems(&self) -> Seq<O> {
        self.inner.elems().map_values(self.mapper@)
    }

    closed spec fn pos(&self) -> int {
        self.inner.pos()
    }

    proof fn lemma_pos_in_range(&self) {
        self.inner.lemma_pos_in_range();
    }

    fn next(&mut self) -> (r: Option<O>) {
        Transform::next(self)
    }

    fn previous(&mut self) -> (r: Option<O>) {
        Transform::previous(self)
    }
}

/// The two-valued state of a [`Chain`]: which wrapped cursor is currently
/// authoritative for production.
#[derive(Debug, Clone, Copy, PartialEq, Eq, Hash)]
pub enum ChainState {
    First,
    Second,
}

/// Adapter created by [`Chain::new`]: traverses the elements of cursor A,
/// then those of cursor B, as one sequence.
///
/// While the state is [`ChainState::First`], cursor B still stands at its
/// own start; the state moves to [`ChainState::Second`] only when A signals
/// forward exhaustion, and back to [`ChainState::First`] only when B signals
/// backward exhaustion.
pub struct Chain<A, B> {
    disjunctor: ChainState,
    inner_a: A,
    inner_b: B,
}

impl<A: Paginator, B: Paginator<Item = A::Item>> Chain<A, B> {
    /// Wraps two paginators so that the elements of `second` follow the
    /// elements of `first`. The second cursor must stand at its logical
    /// start: none of its elements has been produced yet.
    pub fn new(first: A, second: B) -> (r: Self)
        requires
            first.wf(),
            second.wf(),
            second.pos() == 0,
        ensures
            r.wf(),
            r.pos() == first.pos(),
            r.elems() == first.elems() + second.elems(),
    {
        Chain { disjunctor: ChainState::First, inner_a: first, inner_b: second }
    }
}

impl<A: Paginator, B: Paginator<Item = A::Item>> Paginator for Chain<A, B> {
    type Item = A::Item;

    closed spec fn wf(&self) -> bool {
        &&& self.inner_a.wf()
        &&& self.inner_b.wf()
        &&& match self.disjunctor {
            ChainState::First => self.inner_b.pos() == 0,
            ChainState::Second => self.inner_a.pos() == self.inner_a.elems().len(),
        }
    }

    closed spec fn elems(&self) -> Seq<A::Item> {
        self.inner_a.elems() + self.inner_b.elems()
    }

    closed spec fn pos(&self) -> int {
        match self.disjunctor {
            ChainState::First => self.inner_a.pos(),
            ChainState::Second => self.inner_a.elems().len() + self.inner_b.pos(),
        }
    }

    proof fn lemma_pos_in_range(&self) {
        self.inner_a.lemma_pos_in_range();
        self.inner_b.lemma_pos_in_range();
    }

    fn next(&mut self) -> (r: Option<A::Item>) {
        proof {
            self.inner_a.lemma_pos_in_range();
            self.inner_b.lemma_pos_in_range();
        }
        if let ChainState::First = self.disjunctor {
            let next_a = self.inner_a.next();
            if let Some(element) = next_a {
                return Some(element);
            } else {
                self.disjunctor = ChainState::Second;
            }
        }
        let next_b = self.inner_b.next();
        if let Some(element) = next_b {
            Some(element)
        } else {
            None
        }
    }

    fn previous(&mut self) -> (r: Option<A::Item>) {
        proof {
            self.inner_a.lemma_pos_in_range();
            self.inner_b.lemma_pos_in_range();
        }
        if let ChainState::Second = self.disjunctor {
            let previous_b = self.inner_b.previous();
            if let Some(element) = previous_b {
                return Some(element);
            } else {
                self.disjunctor = ChainState::First;
            }
        }
        let previous_a = self.inner_a.previous();
        if let Some(element) = previous_a {
            Some(element)
        } else {
            None
        }
    }
}

} // verus!
