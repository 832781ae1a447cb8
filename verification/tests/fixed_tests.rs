use std::cell::Cell;
use std::rc::Rc;

use ad_hoc_iter::fixed::FixedOwnedIterator;

#[test]
fn iter_over() {
    const EXPECT: usize = 10 + 9 + 8 + 7 + 6 + 5 + 4 + 3 + 2 + 1;
    let mut iter = FixedOwnedIterator::construct(vec![10, 9, 8, 7, 6, 5, 4, 3, 2, 1]);

    assert_eq!(iter.len(), 10);
    let mut sum: usize = 0;
    while let Some(x) = iter.next() {
        sum += x;
    }
    assert_eq!(sum, EXPECT);
}

#[test]
fn non_copy() {
    const EXPECT: &str = "Hello world!";
    let mut iter = FixedOwnedIterator::construct(vec![
        String::from("Hell"),
        String::from("o "),
        String::from("world"),
        String::from("!"),
    ]);
    let mut whole = String::new();
    while let Some(part) = iter.next() {
        whole.push_str(&part);
    }
    assert_eq!(EXPECT, &whole[..]);
}

#[test]
fn empty() {
    let mut iter: FixedOwnedIterator<i32> = FixedOwnedIterator::construct(vec![]);
    let mut empty: Vec<i32> = Vec::new();
    while let Some(x) = iter.next() {
        empty.push(x);
    }
    assert_eq!(empty.len(), 0);
}

#[test]
fn assoc() {
    let mut iter = FixedOwnedIterator::construct(vec![1, 2, 3, 4]);

    assert_eq!(iter.len(), 4);
    iter.next();
    assert_eq!(iter.consumed(), 1);
    assert_eq!(iter.rest(), &[2, 3, 4]);

    let mut iter = FixedOwnedIterator::construct(vec![
        String::from("Hell"),
        String::from("o "),
        String::from("world"),
        String::from("!"),
    ]);

    iter.next();
    iter.next();

    assert_eq!(
        iter.rest().iter().map(|x| x.as_str()).collect::<Vec<_>>().as_slice(),
        &["world", "!"]
    );
}

#[test]
fn length_invariant_through_consumption() {
    let mut iter = FixedOwnedIterator::construct(vec![10, 9, 8, 7, 6, 5, 4, 3, 2, 1]);
    assert_eq!(iter.len(), 10);
    let mut yielded: Vec<i32> = Vec::new();
    while let Some(x) = iter.next() {
        yielded.push(x);
        assert_eq!(iter.len(), 10);
    }
    assert_eq!(iter.len(), 10);
    assert_eq!(yielded, vec![10, 9, 8, 7, 6, 5, 4, 3, 2, 1]);
}

#[test]
fn remaining_matches_original_tail() {
    let values = vec![4, 8, 15, 16, 23, 42];
    let mut iter = FixedOwnedIterator::construct(values.clone());
    for k in 0..values.len() {
        assert_eq!(iter.consumed(), k);
        assert_eq!(iter.remaining_count(), values.len() - k);
        assert_eq!(iter.rest(), &values[k..]);
        assert_eq!(iter.size_hint(), (values.len() - k, Some(values.len() - k)));
        assert_eq!(iter.next(), Some(values[k]));
    }
    assert_eq!(iter.remaining_count(), 0);
    assert_eq!(iter.rest(), &[] as &[i32]);
}

#[test]
fn empty_is_immediately_exhausted() {
    let mut iter: FixedOwnedIterator<u8> = FixedOwnedIterator::construct(Vec::new());
    assert_eq!(iter.len(), 0);
    assert_eq!(iter.remaining_count(), 0);
    assert!(iter.rest().is_empty());
    assert_eq!(iter.size_hint(), (0, Some(0)));
    assert_eq!(iter.next(), None);
    assert_eq!(iter.next(), None);
    assert!(iter.rest().is_empty());
}

#[test]
fn exhaustion_is_permanent() {
    let mut iter = FixedOwnedIterator::construct(vec![1, 2]);
    assert_eq!(iter.next(), Some(1));
    assert_eq!(iter.next(), Some(2));
    for _ in 0..4 {
        assert_eq!(iter.next(), None);
        assert_eq!(iter.size_hint(), (0, Some(0)));
    }
}

struct DropCounter(Rc<Cell<usize>>);

impl Drop for DropCounter {
    fn drop(&mut self) {
        self.0.set(self.0.get() + 1);
    }
}

#[test]
fn early_drop_finalizes_only_the_rest() {
    let drops = Rc::new(Cell::new(0usize));
    let values = vec![
        DropCounter(drops.clone()),
        DropCounter(drops.clone()),
        DropCounter(drops.clone()),
        DropCounter(drops.clone()),
        DropCounter(drops.clone()),
    ];
    let mut iter = FixedOwnedIterator::construct(values);

    let first = iter.next().unwrap();
    let second = iter.next().unwrap();
    assert_eq!(drops.get(), 0);

    drop(iter);
    assert_eq!(drops.get(), 3);

    drop(first);
    drop(second);
    assert_eq!(drops.get(), 5);
}

#[test]
fn full_consumption_then_drop_finalizes_nothing_twice() {
    let drops = Rc::new(Cell::new(0usize));
    let values = vec![DropCounter(drops.clone()), DropCounter(drops.clone())];
    let mut iter = FixedOwnedIterator::construct(values);

    drop(iter.next().unwrap());
    drop(iter.next().unwrap());
    assert_eq!(drops.get(), 2);

    drop(iter);
    assert_eq!(drops.get(), 2);
}
