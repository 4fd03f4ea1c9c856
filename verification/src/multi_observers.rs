//! A bounded, insertion-ordered observer fan-out: one observer that
//! broadcasts every update to at most `N` sub-observers.

use crate::errors::ShoobyError;
use crate::shooby_field::ShoobyField;
use crate::traits::ShoobyObserver;
use vstd::prelude::*;

verus! {

#[verifier::external_type_specification]
#[verifier::external_body]
#[verifier::reject_recursive_types(T)]
pub struct ExHeaplessVec<T, const N: usize>(heapless::Vec<T, N>);

/// A bounded-capacity composite observer: holds up to `N` sub-observers in
/// insertion order and forwards every update to each of them in that order.
#[verifier::reject_recursive_types(ID)]
#[verifier::reject_recursive_types(T)]
pub struct MultiObserver<ID, T: ShoobyObserver<ID = ID>, const N: usize> {
    observers: heapless::Vec<T, N>,
    model: Ghost<Seq<T>>,
}

impl<ID, T: ShoobyObserver<ID = ID>, const N: usize> MultiObserver<ID, T, N> {
    /// The held sub-observers, in insertion order.
    pub closed spec fn observers(&self) -> Seq<T> {
        self.model@
    }

    /// Relies on heapless::Vec::new: a fresh vector is empty.
    #[verifier::external_body]
    pub fn new() -> (r: Self)
        ensures
            r.observers() == Seq::<T>::empty(),
    {
        MultiObserver { observers: heapless::Vec::new(), model: Ghost(Seq::empty()) }
    }

    /// Appends a sub-observer. Fails with `OutOfBounds` once the capacity
    /// `N` is reached, leaving the already-held observers untouched.
    ///
    /// Relies on heapless::Vec::push: it appends exactly when the vector
    /// holds fewer than `N` items, and hands the item back when it is full.
    #[verifier::external_body]
    pub fn add(&mut self, observer: T) -> (r: Result<(), ShoobyError>)
        ensures
            old(self).observers().len() < N ==> r is Ok && final(self).observers() == old(self).observers().push(observer),
            old(self).observers().len() >= N ==> (r matches Err(e) && e == ShoobyError::OutOfBounds
                && final(self).observers() == old(self).observers()),
    {
        match self.observers.push(observer) {
            Ok(()) => Ok(()),
            Err(_) => Err(ShoobyError::OutOfBounds),
        }
    }

    /// Relies on heapless::Vec::deref, which views the held items as a
    /// slice: its length is the number of held items.
    #[verifier::external_body]
    pub fn count(&self) -> (r: usize)
        ensures
            r as nat == self.observers().len(),
    {
        self.observers.len()
    }

    /// Relies on heapless::Vec::deref, which views the held items as a
    /// slice in insertion order: the item at one position of that slice.
    #[verifier::external_body]
    fn observer_at(&self, i: usize) -> (r: &T)
        requires
            i < self.observers().len(),
        ensures
            *r == self.observers()[i as int],
    {
        &self.observers[i]
    }
}

impl<ID, T: ShoobyObserver<ID = ID>, const N: usize> ShoobyObserver for MultiObserver<ID, T, N> {
    type ID = ID;

    /// Forwards the update to every held sub-observer, in insertion order.
    fn update(&self, field: &ShoobyField<ID>) {
        let n = self.count();
        let mut i: usize = 0;
        while i < n
            invariant
                i <= n,
                n == self.observers().len(),
            decreases n - i,
        {
            let obs = self.observer_at(i);
            obs.update(field);
            i = i + 1;
        }
    }
}

} // verus!
