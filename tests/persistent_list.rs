use functional_lab::functional_data_structures::{Fibonacci, List};
use std::rc::Rc;

fn walk(l: &List<i32>) -> Vec<i32> {
    let mut out = Vec::new();
    let mut it = l.iter();
    while let Some(x) = it.next() {
        out.push(*x);
    }
    out
}

#[test]
fn iteration_is_most_recent_first() {
    let l = List::new().prepend(1).prepend(2);
    assert_eq!(walk(&l), vec![2, 1]);
}

#[test]
fn iteration_of_empty_is_empty() {
    let l: List<i32> = List::new();
    assert_eq!(walk(&l), Vec::<i32>::new());
    assert!(l.iter().next().is_none());
}

#[test]
fn iteration_restarts_from_head() {
    let l = List::new().prepend(3).prepend(2).prepend(1);
    let first = walk(&l);
    let second = walk(&l);
    assert_eq!(first, vec![1, 2, 3]);
    assert_eq!(first, second);
}

#[test]
fn elements_match_walk() {
    let l = List::new().prepend(3).prepend(2).prepend(1);
    let refs: Vec<i32> = l.elements().into_iter().copied().collect();
    assert_eq!(refs, vec![1, 2, 3]);
    let e: List<i32> = List::new();
    assert!(e.elements().is_empty());
}

#[test]
fn head_and_tail() {
    let l = List::new().prepend(3).prepend(2).prepend(1);
    assert_eq!(l.head(), Some(&1));
    let t = l.tail().unwrap();
    assert_eq!(walk(t), vec![2, 3]);
    assert_eq!(t.head(), Some(&2));
    let one = List::new().prepend(7);
    assert_eq!(one.tail(), Some(&List::Empty));
}

#[test]
fn head_and_tail_of_empty() {
    let l: List<i32> = List::new();
    assert_eq!(l.head(), None);
    assert!(l.tail().is_none());
}

#[test]
fn prepend_shares_the_tail() {
    let base = List::new().prepend(5).prepend(4);
    let a = base.prepend(1);
    let b = base.prepend(2);
    let ta = a.tail().unwrap();
    let tb = b.tail().unwrap();
    // Equal by value.
    assert_eq!(ta, &base);
    assert_eq!(tb, &base);
    assert_ne!(a, b);
    // The very same nodes, not copies.
    match (ta, tb, &base) {
        (List::Cons(x), List::Cons(y), List::Cons(z)) => {
            assert!(Rc::ptr_eq(x, y));
            assert!(Rc::ptr_eq(x, z));
        }
        _ => panic!("tails should not be empty"),
    }
    assert_eq!(walk(&base), vec![4, 5]);
}

#[test]
fn dropping_a_list_keeps_shared_tail_alive() {
    let base = List::new().prepend(9);
    let node = match &base {
        List::Cons(n) => Rc::clone(n),
        List::Empty => panic!("base is not empty"),
    };
    let before = Rc::strong_count(&node);
    let a = base.prepend(1);
    let b = base.prepend(2);
    assert_eq!(Rc::strong_count(&node), before + 2);
    drop(a);
    assert_eq!(walk(&b), vec![2, 9]);
    drop(b);
    drop(base);
    assert_eq!(Rc::strong_count(&node), 1);
}

#[test]
fn repeated_prepend_and_drop_releases_nodes() {
    let base = List::new().prepend(0);
    let node = match &base {
        List::Cons(n) => Rc::clone(n),
        List::Empty => panic!("base is not empty"),
    };
    for i in 0..1000 {
        let l = base.prepend(i).prepend(i + 1);
        assert_eq!(walk(&l).len(), 3);
    }
    assert_eq!(Rc::strong_count(&node), 2);
}

#[test]
fn clone_is_another_handle() {
    let l = List::new().prepend(2).prepend(1);
    let c = l.clone();
    assert_eq!(c, l);
    match (&l, &c) {
        (List::Cons(x), List::Cons(y)) => assert!(Rc::ptr_eq(x, y)),
        _ => panic!("lists should not be empty"),
    }
}

#[test]
fn works_with_strings() {
    let l = List::new().prepend(String::from("b")).prepend(String::from("a"));
    assert_eq!(l.head().map(|s| s.as_str()), Some("a"));
    let mut it = l.iter();
    assert_eq!(it.next().map(|s| s.as_str()), Some("a"));
    assert_eq!(it.next().map(|s| s.as_str()), Some("b"));
    assert_eq!(it.next(), None);
    assert_eq!(it.next(), None);
}

#[test]
fn fibonacci_first_ten() {
    let mut f = Fibonacci::new();
    let mut got = Vec::new();
    for _ in 0..10 {
        got.push(f.next().unwrap());
    }
    assert_eq!(got, vec![0, 1, 1, 2, 3, 5, 8, 13, 21, 34]);
}

#[test]
fn fibonacci_stops_before_overflow() {
    let mut f = Fibonacci::new();
    let mut count: u32 = 0;
    let mut last: u64 = 0;
    while let Some(x) = f.next() {
        last = x;
        count += 1;
    }
    // fib(92) + fib(93) overflows a u64, so fib(0) ..= fib(91) come out.
    assert_eq!(count, 92);
    assert_eq!(last, 4660046610375530309);
    assert_eq!(f.next(), None);
}
