//! Blocking engines: a backing structure behind one mutex, with condition
//! variables that wake waiting poppers and pushers.
use crate::ordering::Backing;
use std::sync::Condvar;
use std::sync::Mutex;
use std::sync::MutexGuard;
use std::sync::PoisonError;
use vstd::multiset::Multiset;
use vstd::prelude::*;

verus! {

/// std's Mutex, carried through as an opaque value.
#[verifier::external_type_specification]
#[verifier::external_body]
#[verifier::reject_recursive_types(T)]
pub struct ExMutex<T: ?Sized>(Mutex<T>);

/// std's MutexGuard: while it lives, its thread holds the lock.
#[verifier::external_type_specification]
#[verifier::external_body]
#[verifier::reject_recursive_types(T)]
pub struct ExMutexGuard<'a, T: ?Sized + 'a>(MutexGuard<'a, T>);

/// std's Condvar, carried through as an opaque value.
#[verifier::external_type_specification]
#[verifier::external_body]
pub struct ExCondvar(Condvar);

/// Relies on Mutex::new: a fresh, unlocked mutex around the value; nothing
/// more is claimed.
pub assume_specification<T>[ Mutex::<T>::new ](t: T) -> Mutex<T>;

/// Relies on Condvar::new: a condition variable with no waiters; nothing
/// more is claimed.
pub assume_specification[ Condvar::new ]() -> Condvar;

/// Relies on Condvar::notify_one: wakes at most one waiter; nothing is
/// claimed of it.
pub assume_specification[ Condvar::notify_one ](cv: &Condvar);

/// A backing structure together with the most items it may hold.
/// At every moment it holds no more than that.
pub struct Bounded<B: Backing> {
    backing: B,
    cap: usize,
}

impl<B: Backing> Bounded<B> {
    #[verifier::type_invariant]
    spec fn within_capacity(self) -> bool {
        self.backing.items().len() <= self.cap
    }

    pub closed spec fn items(self) -> Multiset<B::Item> {
        self.backing.items()
    }

    pub closed spec fn capacity(self) -> nat {
        self.cap as nat
    }

    /// The items in the backing's own order.
    pub closed spec fn order(self) -> Seq<B::Item> {
        self.backing.order()
    }

    pub closed spec fn backing(self) -> B {
        self.backing
    }

    pub fn new(cap: usize) -> (r: Self)
        ensures
            r.items() =~= Multiset::<B::Item>::empty(),
            r.order() == Seq::<B::Item>::empty(),
            r.capacity() == cap,
    {
        Bounded { backing: B::empty(), cap }
    }

    /// How many items are held: never more than the capacity.
    pub fn len(&self) -> (r: usize)
        ensures
            r == self.items().len(),
            r <= self.capacity(),
    {
        proof {
            use_type_invariant(self);
        }
        self.backing.len()
    }

    pub fn is_full(&self) -> (r: bool)
        ensures
            r == (self.items().len() >= self.capacity()),
    {
        proof {
            use_type_invariant(self);
        }
        self.backing.len() >= self.cap
    }

    pub fn is_empty(&self) -> (r: bool)
        ensures
            r == (self.items().len() == 0),
    {
        self.backing.is_empty()
    }

    /// Adds `a`; only allowed while there is room.
    pub fn push(self, a: B::Item) -> (r: Self)
        requires
            self.items().len() < self.capacity(),
        ensures
            r.items() =~= self.items().insert(a),
            B::after_insert(self.order(), a, r.order()),
            r.capacity() == self.capacity(),
            r.items().len() <= r.capacity(),
    {
        let Bounded { backing, cap } = self;
        let mut backing = backing;
        backing.insert(a);
        Bounded { backing, cap }
    }

    /// Takes the next item in the backing's order, if there is one.
    pub fn pop(self) -> (r: (Self, Option<B::Item>))
        ensures
            r.1 is None <==> self.items().len() == 0,
            r.1 is None ==> r.0.items() =~= self.items() && r.0.order() == self.order(),
            r.1 matches Some(a) ==> {
                &&& self.items().count(a) > 0
                &&& self.backing().is_next(a)
                &&& r.0.items() =~= self.items().remove(a)
                &&& B::after_remove(self.order(), a, r.0.order())
            },
            r.0.capacity() == self.capacity(),
    {
        proof {
            use_type_invariant(&self);
        }
        let Bounded { backing, cap } = self;
        let mut backing = backing;
        let item = backing.remove();
        (Bounded { backing, cap }, item)
    }
}

/// Relies on Mutex::lock: blocks until this thread holds the lock. A lock
/// left poisoned by a panicking holder is taken over as it stands.
#[verifier::external_body]
fn lock<S>(m: &Mutex<S>) -> MutexGuard<'_, S> {
    m.lock().unwrap_or_else(PoisonError::into_inner)
}

/// Relies on mem::replace through the guard: puts `s` under the lock and
/// returns what was there.
#[verifier::external_body]
fn swap_contents<S>(g: &mut MutexGuard<'_, S>, s: S) -> S {
    std::mem::replace(&mut **g, s)
}

/// Relies on MutexGuard's drop: releases the lock.
#[verifier::external_body]
fn unlock<S>(g: MutexGuard<'_, S>) {
    drop(g)
}

/// Relies on Condvar::wait_while, which returns with the lock held only once
/// the closure answers false: the backing is then not empty. Its contents
/// are moved out, and `empty` is left in their place. A lock poisoned by a
/// thread that panicked while holding it makes `wait_while` return before
/// the check; that panic is passed on here, so every return meets the claim.
#[verifier::external_body]
fn wait_for_item<'a, B: Backing>(cv: &Condvar, g: MutexGuard<'a, B>, empty: B) -> (r: (
    MutexGuard<'a, B>,
    B,
))
    ensures
        r.1.items().len() > 0,
{
    let mut g = cv.wait_while(g, |b| b.is_empty()).unwrap();
    let b = std::mem::replace(&mut *g, empty);
    (g, b)
}

/// Relies on Condvar::wait_while, as `wait_for_item` does (poisoning
/// included), for a bounded state: on return it holds at least one item.
#[verifier::external_body]
fn wait_for_bounded_item<'a, B: Backing>(
    cv: &Condvar,
    g: MutexGuard<'a, Bounded<B>>,
    empty: Bounded<B>,
) -> (r: (MutexGuard<'a, Bounded<B>>, Bounded<B>))
    ensures
        r.1.items().len() > 0,
{
    let mut g = cv.wait_while(g, |b| b.is_empty()).unwrap();
    let b = std::mem::replace(&mut *g, empty);
    (g, b)
}

/// Relies on Condvar::wait_while, as `wait_for_item` does (poisoning
/// included): on return the bounded state has room for one more item.
#[verifier::external_body]
fn wait_for_room<'a, B: Backing>(cv: &Condvar, g: MutexGuard<'a, Bounded<B>>, empty: Bounded<B>) -> (r: (
    MutexGuard<'a, Bounded<B>>,
    Bounded<B>,
))
    ensures
        r.1.items().len() < r.1.capacity(),
{
    let mut g = cv.wait_while(g, |b| b.is_full()).unwrap();
    let b = std::mem::replace(&mut *g, empty);
    (g, b)
}

/// An unbounded blocking engine: `push` never waits, `pop` waits for an item.
#[verifier::reject_recursive_types(B)]
pub struct Unbounded<B> {
    state: Mutex<B>,
    not_empty: Condvar,
}

impl<B: Backing> Unbounded<B> {
    pub fn new() -> Self {
        Unbounded { state: Mutex::new(B::empty()), not_empty: Condvar::new() }
    }

    /// Waits until an item is present, then removes the next one in the
    /// backing's order. The removal cannot fail: it happens under the same
    /// lock hold in which the backing was seen not empty.
    pub fn pop(&self) -> B::Item {
        let g = lock(&self.state);
        let (mut g, mut b) = wait_for_item(&self.not_empty, g, B::empty());
        let item = b.remove();
        swap_contents(&mut g, b);
        unlock(g);
        item.unwrap()
    }

    /// Adds an item and wakes one waiting popper.
    pub fn push(&self, a: B::Item) {
        let mut g = lock(&self.state);
        let mut b = swap_contents(&mut g, B::empty());
        b.insert(a);
        swap_contents(&mut g, b);
        unlock(g);
        self.not_empty.notify_one();
    }
}

/// A bounded blocking engine: `push` waits for room, `pop` waits for an item.
#[verifier::reject_recursive_types(B)]
pub struct BoundedEngine<B: Backing> {
    state: Mutex<Bounded<B>>,
    not_empty: Condvar,
    not_full: Condvar,
    cap: usize,
}

impl<B: Backing> BoundedEngine<B> {
    /// The most items the engine holds at once.
    pub closed spec fn capacity(&self) -> nat {
        self.cap as nat
    }

    pub fn new(cap: usize) -> (r: Self)
        ensures
            r.capacity() == cap,
    {
        BoundedEngine {
            state: Mutex::new(Bounded::new(cap)),
            not_empty: Condvar::new(),
            not_full: Condvar::new(),
            cap,
        }
    }

    /// Waits until an item is present, removes the next one in the backing's
    /// order, and wakes one waiting pusher.
    pub fn pop(&self) -> B::Item {
        let g = lock(&self.state);
        let (mut g, b) = wait_for_bounded_item(&self.not_empty, g, Bounded::new(self.cap));
        let (b, item) = b.pop();
        swap_contents(&mut g, b);
        unlock(g);
        self.not_full.notify_one();
        item.unwrap()
    }

    /// Waits until there is room, adds the item, and wakes one waiting popper.
    pub fn push(&self, a: B::Item) {
        let g = lock(&self.state);
        let (mut g, b) = wait_for_room(&self.not_full, g, Bounded::new(self.cap));
        let b = b.push(a);
        swap_contents(&mut g, b);
        unlock(g);
        self.not_empty.notify_one();
    }
}

} // verus!
