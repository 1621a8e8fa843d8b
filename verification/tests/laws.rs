use paginator::adapters::{Chain, Enumerate};
use paginator::laws::{advance_then_retreat, collect_backward, collect_forward, round_trip};
use paginator::source::{once, Paginate, PaginateMut};
use paginator::Paginator;

#[test]
fn round_trip_on_vec_cursor() {
    let items = vec![1, 2, 3, 4];
    let mut pag = items.paginate();

    let (forward, backward) = round_trip(&mut pag);
    assert_eq!(forward, vec![1, 2, 3, 4]);
    assert_eq!(backward, vec![4, 3, 2, 1]);
    assert_eq!(pag.previous(), None);
    assert_eq!(pag.next(), Some(1));
}

#[test]
fn round_trip_on_empty_cursor() {
    let items: Vec<u8> = vec![];
    let mut pag = items.paginate();

    let (forward, backward) = round_trip(&mut pag);
    assert!(forward.is_empty());
    assert!(backward.is_empty());
}

#[test]
fn round_trip_on_chain_of_once() {
    let mut pag = Chain::new(once(1), once(2));

    let (forward, backward) = round_trip(&mut pag);
    assert_eq!(forward, vec![1, 2]);
    assert_eq!(backward, vec![2, 1]);
}

#[test]
fn round_trip_on_enumerate() {
    let items = vec!["p", "q"];
    let mut pag = Enumerate::new(items.paginate());

    let (forward, backward) = round_trip(&mut pag);
    assert_eq!(forward, vec![(0, "p"), (1, "q")]);
    assert_eq!(backward, vec![(1, "q"), (0, "p")]);
}

#[test]
fn collect_forward_starts_mid_sequence() {
    let items = vec![1, 2, 3];
    let mut pag = items.paginate();

    assert_eq!(pag.next(), Some(1));
    let rest = collect_forward(&mut pag);
    assert_eq!(rest, vec![2, 3]);
    assert_eq!(pag.next(), None);
}

#[test]
fn collect_backward_returns_prefix_reversed() {
    let items = vec![1, 2, 3];
    let mut pag = items.paginate();

    pag.next();
    pag.next();
    let seen = collect_backward(&mut pag);
    assert_eq!(seen, vec![2, 1]);
    assert_eq!(pag.previous(), None);
}

#[test]
fn advance_then_retreat_restores_position() {
    let items = vec![7, 8];
    let mut pag = items.paginate_mut();

    let (advanced, retreated) = advance_then_retreat(&mut pag);
    assert_eq!(advanced, Some(7));
    assert_eq!(retreated, Some(7));
    assert_eq!(pag.next(), Some(7));
}

#[test]
fn advance_then_retreat_at_the_end() {
    let items = vec![7];
    let mut pag = items.paginate();

    assert_eq!(pag.next(), Some(7));
    let (advanced, retreated) = advance_then_retreat(&mut pag);
    assert_eq!(advanced, None);
    assert_eq!(retreated, None);
    assert_eq!(pag.previous(), Some(7));
}
