//! Source cursors: paginators that read (or edit) a backing collection
//! directly rather than wrapping another paginator.

use vstd::prelude::*;

use crate::Paginator;

verus! {

/// Paginator that holds a single element.
///
/// Its position is two-valued: 0 before the element, 1 after it. It behaves
/// exactly like a cursor over a sequence of length one.
pub struct Once<A> {
    position: usize,
    element: A,
}

/// Returns a paginator with a single element.
pub fn once<A: Copy>(element: A) -> (r: Once<A>)
    ensures
        r.wf(),
        r.pos() == 0,
        r.elems() == seq![element],
{
    Once { position: 0, element }
}

impl<A: Copy> Paginator for Once<A> {
    type Item = A;

    closed spec fn wf(&self) -> bool {
        self.position <= 1
    }

    closed spec fn elems(&self) -> Seq<A> {
        seq![self.element]
    }

    closed spec fn pos(&self) -> int {
        self.position as int
    }

    proof fn lemma_pos_in_range(&self) {
    }

    fn next(&mut self) -> (r: Option<A>) {
        if self.position == 0 {
            self.position = 1;
            Some(self.element)
        } else {
            None
        }
    }

    fn previous(&mut self) -> (r: Option<A>) {
        if self.position == 1 {
            self.position = 0;
            Some(self.element)
        } else {
            None
        }
    }
}

/// A paginator that views the elements of a [`Vec`].
///
/// The cursor owns the vector it observes; `index` is the current position,
/// always within `0 ..= items.len()`.
pub struct VecPag<A> {
    pub items: Vec<A>,
    pub index: usize,
}

impl<A: Copy> Paginator for VecPag<A> {
    type Item = A;

    open spec fn wf(&self) -> bool {
        self.index <= self.items.len()
    }

    open spec fn elems(&self) -> Seq<A> {
        self.items@
    }

    open spec fn pos(&self) -> int {
        self.index as int
    }

    proof fn lemma_pos_in_range(&self) {
    }

    fn next(&mut self) -> (r: Option<A>) {
        if self.index < self.items.len() {
            let element: A = self.items[self.index];
            self.index = self.index + 1;
            Some(element)
        } else {
            None
        }
    }

    fn previous(&mut self) -> (r: Option<A>) {
        if self.index == 0 {
            None
        } else {
            self.index = self.index - 1;
            Some(self.items[self.index])
        }
    }
}

/// A paginator that edits the elements of a [`Vec`].
///
/// Position semantics are identical to [`VecPag`]; in addition the element
/// on either side of the cursor can be overwritten in place, and the edited
/// vector can be recovered once traversal is done.
pub struct VecPagMut<A> {
    pub items: Vec<A>,
    pub index: usize,
}

impl<A: Copy> Paginator for VecPagMut<A> {
    type Item = A;

    open spec fn wf(&self) -> bool {
        self.index <= self.items.len()
    }

    open spec fn elems(&self) -> Seq<A> {
        self.items@
    }

    open spec fn pos(&self) -> int {
        self.index as int
    }

    proof fn lemma_pos_in_range(&self) {
    }

    fn next(&mut self) -> (r: Option<A>) {
        if self.index < self.items.len() {
            let element: A = self.items[self.index];
            self.index = self.index + 1;
            Some(element)
        } else {
            None
        }
    }

    fn previous(&mut self) -> (r: Option<A>) {
        if self.index == 0 {
            None
        } else {
            self.index = self.index - 1;
            Some(self.items[self.index])
        }
    }
}

impl<A: Copy> VecPagMut<A> {
    /// Overwrites the element the next forward step would yield, if one
    /// exists. Returns whether a write happened; the cursor does not move.
    pub fn write_next(&mut self, value: A) -> (r: bool)
        requires
            old(self).wf(),
        ensures
            final(self).wf(),
            final(self).pos() == old(self).pos(),
            r == (old(self).pos() < old(self).elems().len()),
            r ==> final(self).elems() == old(self).elems().update(old(self).pos(), value),
            !r ==> final(self).elems() == old(self).elems(),
    {
        if self.index < self.items.len() {
            self.items.set(self.index, value);
            true
        } else {
            false
        }
    }

    /// Overwrites the element the next backward step would yield — the one
    /// most recently stepped over — if the cursor is not at the start.
    /// Returns whether a write happened; the cursor does not move.
    pub fn write_previous(&mut self, value: A) -> (r: bool)
        requires
            old(self).wf(),
        ensures
            final(self).wf(),
            final(self).pos() == old(self).pos(),
            r == (old(self).pos() > 0),
            r ==> final(self).elems() == old(self).elems().update(old(self).pos() - 1, value),
            !r ==> final(self).elems() == old(self).elems(),
    {
        if self.index > 0 {
            self.items.set(self.index - 1, value);
            true
        } else {
            false
        }
    }

    /// Consumes the cursor and hands back the vector, with every edit made
    /// through the cursor in place.
    pub fn into_items(self) -> (r: Vec<A>)
        ensures
            r@ == self.elems(),
    {
        self.items
    }
}

/// Trait for conversion of an owned collection into a paginator positioned
/// at the logical start.
pub trait Paginate: Sized {
    type Paginator: Paginator;

    /// The sequence the produced paginator will observe.
    spec fn spec_elems(&self) -> Seq<<Self::Paginator as Paginator>::Item>;

    /// Converts the collection into a read cursor at position 0.
    fn paginate(self) -> (r: Self::Paginator)
        ensures
            r.wf(),
            r.pos() == 0,
            r.elems() == self.spec_elems(),
    ;
}

/// Trait for conversion of an owned collection into a mutating paginator
/// positioned at the logical start.
pub trait PaginateMut: Sized {
    type Paginator: Paginator;

    /// The sequence the produced paginator will observe.
    spec fn spec_elems(&self) -> Seq<<Self::Paginator as Paginator>::Item>;

    /// Converts the collection into a mutating cursor at position 0.
    fn paginate_mut(self) -> (r: Self::Paginator)
        ensures
            r.wf(),
            r.pos() == 0,
            r.elems() == self.spec_elems(),
    ;
}

impl<A: Copy> Paginate for Vec<A> {
    type Paginator = VecPag<A>;

    open spec fn spec_elems(&self) -> Seq<A> {
        self@
    }

    fn paginate(self) -> (r: VecPag<A>) {
        VecPag { items: self, index: 0 }
    }
}

impl<A: Copy> PaginateMut for Vec<A> {
    type Paginator = VecPagMut<A>;

    open spec fn spec_elems(&self) -> Seq<A> {
        self@
    }

    fn paginate_mut(self) -> (r: VecPagMut<A>) {
        VecPagMut { items: self, index: 0 }
    }
}

} // verus!
