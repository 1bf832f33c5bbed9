//! Backing structures behind the blocking queues: one insert/remove
//! interface, implemented in arrival order and in largest-first order.
use std::collections::VecDeque;
use vstd::multiset::Multiset;
use vstd::prelude::*;

verus! {

broadcast use vstd::seq_lib::group_to_multiset_ensures;

/// A collection that items go into one at a time and come out of in an
/// order of its own.
pub trait Backing: Sized {
    type Item;

    /// The items present, without regard to order.
    spec fn items(&self) -> Multiset<Self::Item>;

    /// Whether `a` is an item that `remove` may hand out next.
    spec fn is_next(&self, a: Self::Item) -> bool;

    /// The items in the order the structure keeps them.
    spec fn order(&self) -> Seq<Self::Item>;

    /// How the order changes when `a` is inserted.
    spec fn after_insert(before: Seq<Self::Item>, a: Self::Item, after: Seq<Self::Item>) -> bool;

    /// How the order changes when `a` is removed.
    spec fn after_remove(before: Seq<Self::Item>, a: Self::Item, after: Seq<Self::Item>) -> bool;

    fn empty() -> (r: Self)
        ensures
            r.items() =~= Multiset::<Self::Item>::empty(),
            r.order() == Seq::<Self::Item>::empty(),
    ;

    fn len(&self) -> (r: usize)
        ensures
            r == self.items().len(),
    ;

    fn is_empty(&self) -> (r: bool)
        ensures
            r == (self.items().len() == 0),
    ;

    fn insert(&mut self, a: Self::Item)
        ensures
            final(self).items() =~= old(self).items().insert(a),
            Self::after_insert(old(self).order(), a, final(self).order()),
    ;

    fn remove(&mut self) -> (r: Option<Self::Item>)
        ensures
            r is None <==> old(self).items().len() == 0,
            r is None ==> final(self).items() =~= old(self).items() && final(self).order()
                == old(self).order(),
            r matches Some(a) ==> {
                &&& old(self).items().count(a) > 0
                &&& old(self).is_next(a)
                &&& final(self).items() =~= old(self).items().remove(a)
                &&& Self::after_remove(old(self).order(), a, final(self).order())
            },
    ;
}

/// Items in arrival order: the earliest inserted comes out first.
pub struct Fifo<A> {
    items: VecDeque<A>,
}

impl<A> View for Fifo<A> {
    type V = Seq<A>;

    closed spec fn view(&self) -> Seq<A> {
        self.items@
    }
}

impl<A> Fifo<A> {
    pub fn new() -> (r: Self)
        ensures
            r@ == Seq::<A>::empty(),
    {
        Fifo { items: VecDeque::new() }
    }

    /// Appends `a` at the back.
    pub fn push_back(&mut self, a: A)
        ensures
            final(self)@ == old(self)@.push(a),
    {
        self.items.push_back(a);
    }

    /// Takes the front item, if there is one.
    pub fn pop_front(&mut self) -> (r: Option<A>)
        ensures
            old(self)@.len() == 0 ==> r is None && final(self)@ == old(self)@,
            old(self)@.len() > 0 ==> r == Some(old(self)@[0]) && final(self)@ == old(self)@.drop_first(),
    {
        self.items.pop_front()
    }
}

impl<A> Backing for Fifo<A> {
    type Item = A;

    open spec fn items(&self) -> Multiset<A> {
        self@.to_multiset()
    }

    open spec fn is_next(&self, a: A) -> bool {
        self@.len() > 0 && a == self@[0]
    }

    open spec fn order(&self) -> Seq<A> {
        self@
    }

    /// Appended at the back; the rest keep their order.
    open spec fn after_insert(before: Seq<A>, a: A, after: Seq<A>) -> bool {
        after == before.push(a)
    }

    /// Taken from the front; the rest keep their order.
    open spec fn after_remove(before: Seq<A>, a: A, after: Seq<A>) -> bool {
        &&& before.len() > 0
        &&& a == before[0]
        &&& after == before.drop_first()
    }

    fn empty() -> (r: Self) {
        Fifo::new()
    }

    fn len(&self) -> (r: usize) {
        self.items.len()
    }

    fn is_empty(&self) -> (r: bool) {
        self.items.len() == 0
    }

    fn insert(&mut self, a: A) {
        self.push_back(a);
    }

    fn remove(&mut self) -> (r: Option<A>) {
        let ghost before = self@;
        let r = self.pop_front();
        proof {
            if before.len() > 0 {
                assert(before.drop_first() =~= before.remove(0));
                assert(before.contains(before[0]));
            }
        }
        r
    }
}

/// Priorities held in no particular order; the largest comes out first.
/// Among equal priorities, which one leaves is not specified.
pub struct MaxQueue {
    items: Vec<u64>,
}

impl View for MaxQueue {
    type V = Seq<u64>;

    closed spec fn view(&self) -> Seq<u64> {
        self.items@
    }
}

/// `m` is present in `items` and no item is greater.
pub open spec fn is_max_of(items: Multiset<u64>, m: u64) -> bool {
    &&& items.count(m) > 0
    &&& forall|x: u64| items.count(x) > 0 ==> x <= m
}

impl MaxQueue {
    pub fn new() -> (r: Self)
        ensures
            r@ == Seq::<u64>::empty(),
    {
        MaxQueue { items: Vec::new() }
    }

    /// Index of a largest item; `items` must not be empty.
    fn index_of_max(&self) -> (r: usize)
        requires
            self@.len() > 0,
        ensures
            r < self@.len(),
            forall|j: int| 0 <= j < self@.len() ==> self@[j] <= self@[r as int],
    {
        let mut best: usize = 0;
        let mut i: usize = 1;
        while i < self.items.len()
            invariant
                0 < i <= self@.len(),
                best < i,
                forall|j: int| 0 <= j < i ==> self@[j] <= self@[best as int],
            decreases self@.len() - i,
        {
            if self.items[i] > self.items[best] {
                best = i;
            }
            i = i + 1;
        }
        best
    }
}

impl Backing for MaxQueue {
    type Item = u64;

    open spec fn items(&self) -> Multiset<u64> {
        self@.to_multiset()
    }

    open spec fn is_next(&self, a: u64) -> bool {
        is_max_of(self.items(), a)
    }

    open spec fn order(&self) -> Seq<u64> {
        self@
    }

    open spec fn after_insert(before: Seq<u64>, a: u64, after: Seq<u64>) -> bool {
        after == before.push(a)
    }

    /// One occurrence of `a` is taken out; the rest keep their order.
    open spec fn after_remove(before: Seq<u64>, a: u64, after: Seq<u64>) -> bool {
        exists|i: int| 0 <= i < before.len() && before[i] == a && after == before.remove(i)
    }

    fn empty() -> (r: Self) {
        MaxQueue::new()
    }

    fn len(&self) -> (r: usize) {
        self.items.len()
    }

    fn is_empty(&self) -> (r: bool) {
        self.items.len() == 0
    }

    fn insert(&mut self, a: u64) {
        self.items.push(a);
    }

    fn remove(&mut self) -> (r: Option<u64>) {
        if self.items.len() == 0 {
            return None;
        }
        let ghost before = self@;
        let i = self.index_of_max();
        let m = self.items.remove(i);
        proof {
            assert(before[i as int] == m && self@ == before.remove(i as int));
            assert(before.contains(m));
            assert forall|x: u64| before.to_multiset().count(x) > 0 implies x <= m by {
                assert(before.contains(x));
                let j = choose|j: int| 0 <= j < before.len() && before[j] == x;
            }
        }
        Some(m)
    }
}

/// FIFO per producer: take two items of a `Fifo`, at positions `i < j`.
/// An insertion by anyone leaves both where they were; a removal that does
/// not take the earlier one moves both one place forward. So the earlier
/// item stays ahead of the later one until it is itself removed, and items
/// that one producer pushed in turn are popped in that order, whatever
/// other threads push or pop in between.
pub proof fn lemma_fifo_keeps_relative_order<A>(
    before: Seq<A>,
    a: A,
    after: Seq<A>,
    i: int,
    j: int,
)
    requires
        0 <= i < j < before.len(),
    ensures
        <Fifo<A> as Backing>::after_insert(before, a, after) ==> after[i] == before[i] && after[j]
            == before[j],
        <Fifo<A> as Backing>::after_remove(before, a, after) ==> {
            if i == 0 {
                a == before[i]
            } else {
                after[i - 1] == before[i] && after[j - 1] == before[j]
            }
        },
{
}

/// Two removals in a row from a largest-first queue: the second value is no
/// greater than the first, so repeated removal yields a non-increasing
/// sequence.
pub proof fn lemma_max_pops_non_increasing(items: Multiset<u64>, a: u64, b: u64)
    requires
        is_max_of(items, a),
        is_max_of(items.remove(a), b),
    ensures
        b <= a,
{
    assert(items.count(b) > 0);
}

} // verus!
