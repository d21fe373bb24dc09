use std::rc::Rc;
use vstd::prelude::*;

verus! {

/// An immutable singly-linked list. Each non-empty list is a shared handle
/// on its first node, so prepending to a list reuses the whole list as the
/// new tail instead of copying it, and a node lives as long as some list
/// still reaches it.
#[derive(Debug, PartialEq, Eq)]
pub enum List<T> {
    Empty,
    Cons(Rc<Node<T>>),
}

/// One cell of a `List`: an element and the list that follows it.
/// Nodes sit behind `Rc`, so once built they are never changed.
#[derive(Debug, PartialEq, Eq)]
pub struct Node<T> {
    pub value: T,
    pub rest: List<T>,
}

impl<T> List<T> {
    /// The elements of the list, head first.
    pub open spec fn view(&self) -> Seq<T>
        decreases self,
    {
        match self {
            List::Empty => Seq::empty(),
            List::Cons(node) => seq![node.value] + node.rest.view(),
        }
    }

    /// The canonical empty list.
    pub fn new() -> (r: Self)
        ensures
            r == List::<T>::Empty,
            r@ == Seq::<T>::empty(),
    {
        List::Empty
    }

    /// A new list with `elem` in front of `self`. The new list's tail is
    /// `self` itself (a second handle on the same nodes), never a copy.
    pub fn prepend(&self, elem: T) -> (r: Self)
        ensures
            r matches List::Cons(node) && node.value == elem && node.rest == *self,
            r@ == seq![elem] + self@,
    {
        List::Cons(Rc::new(Node { value: elem, rest: self.clone() }))
    }

    /// The first element, or `None` for the empty list.
    pub fn head(&self) -> (r: Option<&T>)
        ensures
            self@.len() == 0 <==> r is None,
            r matches Some(h) ==> *h == self@[0],
    {
        match self {
            List::Cons(node) => Some(&node.value),
            List::Empty => None,
        }
    }

    /// The list after the first element (possibly empty), or `None` for
    /// the empty list.
    pub fn tail(&self) -> (r: Option<&List<T>>)
        ensures
            self@.len() == 0 <==> r is None,
            r matches Some(t) ==> t@ == self@.drop_first(),
            r matches Some(t) ==> (self matches List::Cons(node) && node.rest == *t),
    {
        match self {
            List::Cons(node) => Some(&node.rest),
            List::Empty => None,
        }
    }

    /// A cursor over the elements, head first. Each call starts again from
    /// the head; walking never changes the list.
    pub fn iter(&self) -> (r: ListIter<'_, T>)
        ensures
            r.remaining() == self@,
    {
        ListIter { current: self }
    }

    /// References to all elements, head first, gathered by one walk.
    pub fn elements(&self) -> (r: Vec<&T>)
        ensures
            r@.len() == self@.len(),
            forall|i: int| 0 <= i < r@.len() ==> *r@[i] == self@[i],
    {
        let mut out: Vec<&T> = Vec::new();
        let mut it = self.iter();
        loop
            invariant
                out@.len() + it.remaining().len() == self@.len(),
                forall|i: int| 0 <= i < out@.len() ==> *out@[i] == self@[i],
                it.remaining() == self@.subrange(out@.len() as int, self@.len() as int),
            decreases it.remaining().len(),
        {
            match it.next() {
                Some(x) => {
                    out.push(x);
                },
                None => {
                    return out;
                },
            }
        }
    }
}

impl<T> Clone for List<T> {
    /// Another handle on the same nodes; the elements are not cloned.
    fn clone(&self) -> (r: Self)
        ensures
            r == *self,
    {
        match self {
            List::Empty => List::Empty,
            List::Cons(node) => List::Cons(share(node)),
        }
    }
}

/// A cursor that walks a `List` from its head to its end.
pub struct ListIter<'a, T> {
    current: &'a List<T>,
}

impl<'a, T> ListIter<'a, T> {
    /// The elements that the cursor has yet to yield, in order.
    pub closed spec fn remaining(&self) -> Seq<T> {
        self.current@
    }

    /// Yields the next element, or `None` once the end is reached.
    pub fn next(&mut self) -> (r: Option<&'a T>)
        ensures
            old(self).remaining().len() == 0 ==> (r is None && final(self).remaining()
                == old(self).remaining()),
            old(self).remaining().len() > 0 ==> (r matches Some(x) && *x == old(
                self,
            ).remaining()[0] && final(self).remaining() == old(self).remaining().drop_first()),
    {
        match self.current {
            List::Cons(node) => {
                self.current = &node.rest;
                Some(&node.value)
            },
            List::Empty => None,
        }
    }
}

/// Prepending never disturbs the list prepended to: two lists made from
/// the same list `l` with different front elements each have `l` as their
/// tail, element for element, while the lists themselves differ.
pub proof fn lemma_prepend_shares_tail<T>(l: List<T>, a: T, b: T)
    requires
        a != b,
    ensures
        (seq![a] + l@).drop_first() == l@,
        (seq![b] + l@).drop_first() == l@,
        seq![a] + l@ != seq![b] + l@,
{
    assert((seq![a] + l@).drop_first() =~= l@);
    assert((seq![b] + l@).drop_first() =~= l@);
    assert((seq![a] + l@)[0] == a);
    assert((seq![b] + l@)[0] == b);
}

/// Walking a list again starts over: two cursors taken from the same list
/// have the same elements ahead of them, namely the list's own elements.
pub proof fn lemma_walks_repeat<T>(l: List<T>, first: ListIter<'_, T>, second: ListIter<'_, T>)
    requires
        first.remaining() == l@,
        second.remaining() == l@,
    ensures
        first.remaining() == second.remaining(),
        first.remaining() == l@,
{
}

/// The Fibonacci numbers: 0, 1, 1, 2, 3, 5, ...
pub open spec fn fib(n: nat) -> nat
    decreases n,
{
    if n == 0 {
        0
    } else if n == 1 {
        1
    } else {
        fib((n - 2) as nat) + fib((n - 1) as nat)
    }
}

/// A generator of the Fibonacci numbers that fit in a `u64`.
pub struct Fibonacci {
    current: u64,
    next: u64,
    index: Ghost<nat>,
}

impl Fibonacci {
    /// How many numbers have been yielded so far.
    pub closed spec fn position(&self) -> nat {
        self.index@
    }

    /// The generator holds the two Fibonacci numbers at its position.
    pub closed spec fn wf(&self) -> bool {
        &&& self.current as nat == fib(self.index@)
        &&& self.next as nat == fib(self.index@ + 1)
    }

    /// A generator that starts at the first Fibonacci number, 0.
    pub fn new() -> (r: Self)
        ensures
            r.wf(),
            r.position() == 0,
    {
        Fibonacci { current: 0, next: 1, index: Ghost(0) }
    }

    /// Yields the Fibonacci number at the current position and moves on,
    /// as long as the number after the next one still fits in a `u64`;
    /// otherwise yields `None` and stays where it is.
    pub fn next(&mut self) -> (r: Option<u64>)
        requires
            old(self).wf(),
        ensures
            final(self).wf(),
            ({
                let n = old(self).position();
                if fib(n) + fib(n + 1) <= u64::MAX {
                    r == Some(fib(n) as u64) && final(self).position() == n + 1
                } else {
                    r is None && final(self).position() == n
                }
            }),
    {
        let result = self.current;
        match self.current.checked_add(self.next) {
            Some(new_next) => {
                self.current = self.next;
                self.next = new_next;
                self.index = Ghost(self.index@ + 1);
                Some(result)
            },
            None => None,
        }
    }
}

/// Relies on Rc::clone: the new handle points at the same value.
#[verifier::external_body]
fn share<T>(r: &Rc<T>) -> (s: Rc<T>)
    ensures
        s == *r,
{
    Rc::clone(r)
}

} // verus!
