//! Composable external pagination.
//!
//! A paginator is a cursor over an ordered sequence that can move in both
//! directions: `next` steps forward and yields the element it stepped over,
//! `previous` steps backward and yields the element it stepped back over.
//! Exhaustion in either direction is signalled by `None` and is recoverable
//! by moving the other way.
//!
//! Every cursor carries a mathematical model: the sequence of elements it
//! observes (`elems`) and its current position within that sequence (`pos`),
//! a number in `0 ..= elems().len()`. The contracts of `next` and `previous`
//! are stated entirely in terms of that model, so the behaviour of any chain
//! of adapters is pinned down exactly.

use vstd::prelude::*;

pub mod adapters;
pub mod laws;
pub mod source;

verus! {

/// A cursor over an ordered sequence that can move forward and backward.
///
/// The model of a paginator is the sequence `elems()` it observes together
/// with a position `pos()` in the inclusive range `0 ..= elems().len()`.
/// Stepping forward at position `i` yields element `i` and moves to `i + 1`;
/// stepping backward at position `i` yields element `i - 1` and moves to
/// `i - 1`. At either boundary the step in that direction yields `None` and
/// leaves the cursor where it is, so repeated calls keep signalling the end
/// until a step in the opposite direction succeeds.
pub trait Paginator: Sized {
    /// The type of element this paginator yields.
    type Item;

    /// Well-formedness of the cursor state; established by every
    /// constructor and preserved by every step.
    spec fn wf(&self) -> bool;

    /// The sequence of elements this cursor observes.
    spec fn elems(&self) -> Seq<Self::Item>;

    /// The current position, between 0 and `elems().len()` inclusive.
    spec fn pos(&self) -> int;

    /// A well-formed cursor's position lies within its sequence.
    proof fn lemma_pos_in_range(&self)
        requires
            self.wf(),
        ensures
            0 <= self.pos() <= self.elems().len(),
    ;

    /// Returns the next element, or `None` if the forward direction is
    /// exhausted at the current position.
    fn next(&mut self) -> (r: Option<Self::Item>)
        requires
            old(self).wf(),
        ensures
            final(self).wf(),
            final(self).elems() == old(self).elems(),
            old(self).pos() < old(self).elems().len() ==> {
                &&& r == Some(old(self).elems()[old(self).pos()])
                &&& final(self).pos() == old(self).pos() + 1
            },
            old(self).pos() >= old(self).elems().len() ==> {
                &&& r is None
                &&& final(self).pos() == old(self).pos()
            },
    ;

    /// Returns the element most recently stepped over, or `None` if the
    /// cursor stands at the logical start.
    fn previous(&mut self) -> (r: Option<Self::Item>)
        requires
            old(self).wf(),
        ensures
            final(self).wf(),
            final(self).elems() == old(self).elems(),
            old(self).pos() > 0 ==> {
                &&& r == Some(old(self).elems()[old(self).pos() - 1])
                &&& final(self).pos() == old(self).pos() - 1
            },
            old(self).pos() <= 0 ==> {
                &&& r is None
                &&& final(self).pos() == old(self).pos()
            },
    ;
}

} // verus!
