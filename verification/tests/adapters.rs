use std::cell::Cell;

use paginator::adapters::{Chain, Enumerate, Transform};
use paginator::source::{Paginate, VecPagMut};
use paginator::Paginator;

#[test]
fn adapters_test_map_paginator() {
    let a = vec![20, 30];
    let mut p = Transform::new(a.paginate(), |el: i32| el.to_string());

    assert_eq!(p.next(), Some(String::from("20")));
    assert_eq!(p.next(), Some(String::from("30")));
}

#[test]
fn adapters_test_enumerate_paginator() {
    let items = vec!["Hello", "World"];
    let mut o = Enumerate::new(items.paginate());

    assert_eq!(o.next(), Some((0, "Hello")));
    assert_eq!(o.next(), Some((1, "World")));
}

#[test]
fn adapters_test_chain_paginator() {
    let a = vec![0, 1];
    let b = vec![2, 3];

    let ap = a.paginate();
    let bp = b.paginate();

    let mut p = Chain::new(ap, bp);
    assert_eq!(p.next(), Some(0));
    assert_eq!(p.next(), Some(1));
    assert_eq!(p.next(), Some(2));
    assert_eq!(p.next(), Some(3));
    assert_eq!(p.next(), None);
    assert_eq!(p.previous(), Some(3));
    assert_eq!(p.previous(), Some(2));
    assert_eq!(p.previous(), Some(1));
    assert_eq!(p.previous(), Some(0));
    assert_eq!(p.previous(), None);
}

#[test]
fn transform_is_lazy() {
    let calls = Cell::new(0);
    let items = vec![1, 2, 3];
    let mut p = Transform::new(items.paginate(), |el: i32| {
        calls.set(calls.get() + 1);
        el * 10
    });

    assert_eq!(calls.get(), 0);

    assert_eq!(p.next(), Some(10));
    assert_eq!(calls.get(), 1);
    assert_eq!(p.previous(), Some(10));
    assert_eq!(calls.get(), 2);
}

#[test]
fn construction_touches_no_element() {
    let calls = Cell::new(0);
    let a = vec![1, 2];
    let b = vec![3, 4];
    let observed = Transform::new(a.paginate(), |el: i32| {
        calls.set(calls.get() + 1);
        el
    });
    let _stack = Enumerate::new(Chain::new(observed, b.paginate()));

    assert_eq!(calls.get(), 0);
}

#[test]
fn transform_backward_applies_mapping() {
    let items = vec![2, 4];
    let mut p = Transform::new(items.paginate(), |el: i32| el + 1);

    assert_eq!(p.previous(), None);
    assert_eq!(p.next(), Some(3));
    assert_eq!(p.next(), Some(5));
    assert_eq!(p.next(), None);
    assert_eq!(p.previous(), Some(5));
    assert_eq!(p.previous(), Some(3));
    assert_eq!(p.previous(), None);
}

#[test]
fn enumerate_tags_mirror_on_retreat() {
    let items = vec!["a", "b", "c"];
    let mut o = Enumerate::new(items.paginate());

    assert_eq!(o.next(), Some((0, "a")));
    assert_eq!(o.next(), Some((1, "b")));
    assert_eq!(o.next(), Some((2, "c")));
    assert_eq!(o.next(), None);
    assert_eq!(o.previous(), Some((2, "c")));
    assert_eq!(o.previous(), Some((1, "b")));
    assert_eq!(o.previous(), Some((0, "a")));
    assert_eq!(o.previous(), None);
}

#[test]
fn chain_direction_changes_at_seam() {
    let a = vec![10];
    let b = vec![20];
    let mut p = Chain::new(a.paginate(), b.paginate());

    assert_eq!(p.next(), Some(10));
    assert_eq!(p.next(), Some(20));
    assert_eq!(p.previous(), Some(20));
    assert_eq!(p.next(), Some(20));
    assert_eq!(p.next(), None);
    assert_eq!(p.next(), None);
    assert_eq!(p.previous(), Some(20));
    assert_eq!(p.previous(), Some(10));
    assert_eq!(p.previous(), None);
    assert_eq!(p.previous(), None);
    assert_eq!(p.next(), Some(10));
}

#[test]
fn chain_of_mutating_cursors() {
    let a = VecPagMut { items: vec![1, 2], index: 0 };
    let b = VecPagMut { items: vec![3], index: 0 };
    let mut p = Chain::new(a, b);

    assert_eq!(p.next(), Some(1));
    assert_eq!(p.next(), Some(2));
    assert_eq!(p.next(), Some(3));
    assert_eq!(p.next(), None);
}
