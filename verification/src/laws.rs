//! Traversal laws of the paginator protocol, stated over the model of an
//! arbitrary well-formed paginator and proved once for every cursor and
//! adapter in the crate.

use vstd::prelude::*;

use crate::Paginator;

verus! {

/// Steps forward until the end signal and collects every yielded element:
/// exactly the elements from the current position to the end of the
/// observed sequence, in order.
pub fn collect_forward<P: Paginator>(p: &mut P) -> (out: Vec<P::Item>)
    requires
        old(p).wf(),
    ensures
        final(p).wf(),
        final(p).elems() == old(p).elems(),
        final(p).pos() == old(p).elems().len(),
        out@ == old(p).elems().skip(old(p).pos()),
{
    proof {
        p.lemma_pos_in_range();
    }
    let ghost all: Seq<P::Item> = p.elems();
    let ghost start: int = p.pos();
    let mut out: Vec<P::Item> = Vec::new();
    loop
        invariant
            p.wf(),
            p.elems() == all,
            0 <= start <= p.pos() <= all.len(),
            out@ == all.subrange(start, p.pos()),
        ensures
            p.wf(),
            p.elems() == all,
            p.pos() == all.len(),
            out@ == all.subrange(start, all.len() as int),
        decreases all.len() - p.pos(),
    {
        let ghost before: int = p.pos();
        match p.next() {
            Some(element) => {
                out.push(element);
                proof {
                    assert(out@ =~= all.subrange(start, before + 1));
                }
            },
            None => {
                break;
            },
        }
    }
    proof {
        assert(out@ =~= old(p).elems().skip(old(p).pos()));
    }
    out
}

/// Steps backward until the end signal and collects every yielded element:
/// exactly the elements before the current position, in reverse order.
pub fn collect_backward<P: Paginator>(p: &mut P) -> (out: Vec<P::Item>)
    requires
        old(p).wf(),
    ensures
        final(p).wf(),
        final(p).elems() == old(p).elems(),
        final(p).pos() == 0,
        out@ == old(p).elems().take(old(p).pos()).reverse(),
{
    proof {
        p.lemma_pos_in_range();
    }
    let ghost all: Seq<P::Item> = p.elems();
    let ghost start: int = p.pos();
    let mut out: Vec<P::Item> = Vec::new();
    loop
        invariant
            p.wf(),
            p.elems() == all,
            0 <= p.pos() <= start <= all.len(),
            out@ == all.subrange(p.pos(), start).reverse(),
        ensures
            p.wf(),
            p.elems() == all,
            p.pos() == 0,
            out@ == all.subrange(0, start).reverse(),
        decreases p.pos(),
    {
        let ghost before: int = p.pos();
        match p.previous() {
            Some(element) => {
                out.push(element);
                proof {
                    assert(out@ =~= all.subrange(before - 1, start).reverse());
                }
            },
            None => {
                break;
            },
        }
    }
    proof {
        assert(out@ =~= old(p).elems().take(old(p).pos()).reverse());
    }
    out
}

/// Round-trip symmetry: for any well-formed paginator standing at its
/// start, a full forward pass yields the observed sequence exactly, and
/// the backward pass that follows yields the very same elements in reverse
/// order. Both passes run to the end signal, and the cursor ends where it
/// began, its sequence untouched.
pub fn round_trip<P: Paginator>(p: &mut P) -> (r: (Vec<P::Item>, Vec<P::Item>))
    requires
        old(p).wf(),
        old(p).pos() == 0,
    ensures
        final(p).wf(),
        final(p).elems() == old(p).elems(),
        final(p).pos() == 0,
        r.0@ == old(p).elems(),
        r.1@ == old(p).elems().reverse(),
{
    let forward = collect_forward(p);
    let backward = collect_backward(p);
    proof {
        assert(forward@ =~= old(p).elems());
        assert(backward@ =~= old(p).elems().reverse());
    }
    (forward, backward)
}

/// Single-step symmetry: one backward step right after a successful
/// forward step yields the very element the forward step produced and
/// leaves the cursor as if the forward step had never happened. At the
/// forward end, where no step happens, the cursor is equally untouched.
pub fn advance_then_retreat<P: Paginator>(p: &mut P) -> (r: (Option<P::Item>, Option<P::Item>))
    requires
        old(p).wf(),
    ensures
        final(p).wf(),
        final(p).elems() == old(p).elems(),
        final(p).pos() == old(p).pos(),
        r.1 == r.0,
        old(p).pos() < old(p).elems().len() ==> r.0 == Some(
            old(p).elems()[old(p).pos()],
        ),
        old(p).pos() >= old(p).elems().len() ==> r.0 is None,
{
    proof {
        p.lemma_pos_in_range();
    }
    match p.next() {
        Some(element) => {
            let again = p.previous();
            (Some(element), again)
        },
        None => (None, None),
    }
}

} // verus!
