//! The registry: the fixed, ordered collection of fields for one
//! configuration instance, its take-once lifecycle, factory reset, and the
//! write-transaction protocol that persists and notifies changes.

use crate::errors::ShoobyError;
use crate::shooby_field::{same_shape, spec_reset, FieldView, ShoobyField};
use crate::traits::{ShoobyObserver, ShoobyStorage};
use vstd::prelude::*;

verus! {

/// One live configuration instance: the ordered fields, at most one
/// observer and at most one storage backend.
///
/// `take` consumes the declared field set, so no second registry over the
/// same declaration can ever be produced: single acquisition is enforced by
/// ownership instead of a run-time guard.
#[verifier::reject_recursive_types(ID)]
pub struct ShoobyDb<ID, Observer, Storage> where
    Observer: ShoobyObserver<ID = ID>,
    Storage: ShoobyStorage<ID = ID>,
 {
    name: String,
    items: Vec<ShoobyField<ID>>,
    observer: Option<Observer>,
    storage: Option<Storage>,
}

/// Borrows one element of a vector mutably.
fn field_at_mut<T>(v: &mut Vec<T>, i: usize) -> (element: &mut T)
    requires
        i < old(v).len(),
    ensures
        *element == old(v)@[i as int],
        final(v)@ == old(v)@.update(i as int, *final(element)),
{
    &mut v[i]
}

/// Re-applies every field's declared default through the same
/// compare-then-assign path as the setters.
fn reset_fields<ID: Copy>(items: &mut Vec<ShoobyField<ID>>)
    ensures
        final(items)@.len() == old(items)@.len(),
        forall|i: int|
            0 <= i < old(items)@.len() ==> final(items)@[i]@ == spec_reset(old(items)@[i]@),
{
    let ghost orig = items@;
    let n = items.len();
    let mut i: usize = 0;
    while i < n
        invariant
            i <= n,
            n == items@.len() == orig.len(),
            forall|j: int| i <= j < n ==> items@[j] == orig[j],
            forall|j: int| 0 <= j < i ==> items@[j]@ == spec_reset(orig[j]@),
        decreases n - i,
    {
        let fld = field_at_mut(items, i);
        fld.reset_to_default();
        i = i + 1;
    }
}

/// Lowers every field's change flag.
fn clear_flags<ID: Copy>(items: &mut Vec<ShoobyField<ID>>)
    ensures
        final(items)@.len() == old(items)@.len(),
        forall|i: int|
            0 <= i < old(items)@.len() ==> final(items)@[i]@ == (FieldView {
                dirty: false,
                ..old(items)@[i]@
            }),
{
    let ghost orig = items@;
    let n = items.len();
    let mut i: usize = 0;
    while i < n
        invariant
            i <= n,
            n == items@.len() == orig.len(),
            forall|j: int| i <= j < n ==> items@[j] == orig[j],
            forall|j: int|
                0 <= j < i ==> items@[j]@ == (FieldView { dirty: false, ..orig[j]@ }),
        decreases n - i,
    {
        let fld = field_at_mut(items, i);
        fld.clear_dirty();
        i = i + 1;
    }
}

/// Saves every field that is both changed and persistent, in declaration
/// order, stopping at the first storage failure; reports that failure.
fn save_dirty<ID: Copy, Storage: ShoobyStorage<ID = ID>>(
    items: &Vec<ShoobyField<ID>>,
    storage: &Storage,
) -> (r: Option<ShoobyError>) {
    let n = items.len();
    let mut i: usize = 0;
    while i < n
        invariant
            i <= n,
            n == items@.len(),
        decreases n - i,
    {
        let fld = &items[i];
        if fld.dirty() && fld.persistent() {
            match fld.save(storage) {
                Ok(()) => (),
                Err(e) => {
                    return Some(e);
                },
            }
        }
        i = i + 1;
    }
    None
}

/// Hands every changed field, in declaration order, to the observer.
fn notify_dirty<ID: Copy, Observer: ShoobyObserver<ID = ID>>(
    items: &Vec<ShoobyField<ID>>,
    observer: &Observer,
) {
    let n = items.len();
    let mut i: usize = 0;
    while i < n
        invariant
            i <= n,
            n == items@.len(),
        decreases n - i,
    {
        let fld = &items[i];
        if fld.dirty() {
            observer.update(fld);
        }
        i = i + 1;
    }
}

impl<ID: Copy, Observer, Storage> ShoobyDb<ID, Observer, Storage> where
    Observer: ShoobyObserver<ID = ID>,
    Storage: ShoobyStorage<ID = ID>,
 {
    /// The registry's display name.
    pub closed spec fn spec_name(&self) -> Seq<char> {
        self.name@
    }

    /// The registry's fields, as the vector value it owns.
    pub closed spec fn spec_fields(&self) -> Vec<ShoobyField<ID>> {
        self.items
    }

    /// The registry's observer, if one was supplied.
    pub closed spec fn spec_observer(&self) -> Option<Observer> {
        self.observer
    }

    /// The registry's storage backend, if one was supplied.
    pub closed spec fn spec_storage(&self) -> Option<Storage> {
        self.storage
    }

    /// The states of the registry's fields, in declaration order.
    pub open spec fn fields_view(&self) -> Seq<FieldView<ID>> {
        self.spec_fields()@.map(|i: int, f: ShoobyField<ID>| f@)
    }

    /// One-shot constructor: consumes the declared field set and returns
    /// the only registry there will ever be over it. Every field is set to
    /// its declared default and every change flag is lowered, so the first
    /// write transaction starts from a clean slate.
    ///
    /// Because the declaration is consumed, a second acquisition over the
    /// same declared registry cannot be expressed at all.
    pub fn take(
        name: &str,
        fields: Vec<ShoobyField<ID>>,
        observer: Option<Observer>,
        storage: Option<Storage>,
    ) -> (db: Self)
        ensures
            db.spec_name() == name@,
            db.spec_observer() == observer,
            db.spec_storage() == storage,
            db.fields_view().len() == fields@.len(),
            forall|i: int|
                0 <= i < fields@.len() ==> db.fields_view()[i] == (FieldView {
                    value: fields@[i]@.default,
                    dirty: false,
                    ..fields@[i]@
                }),
    {
        let ghost orig = fields@;
        let mut fields = fields;
        reset_fields(&mut fields);
        clear_flags(&mut fields);
        let db = ShoobyDb { name: name.to_owned(), items: fields, observer, storage };
        proof {
            assert forall|i: int| 0 <= i < orig.len() implies db.fields_view()[i] == (FieldView {
                value: orig[i]@.default,
                dirty: false,
                ..orig[i]@
            }) by {
                assert(db.fields_view()[i] == db.items@[i]@);
            }
        }
        db
    }

    /// The registry's display name.
    pub fn name(&self) -> (r: &str)
        ensures
            r@ == self.spec_name(),
    {
        self.name.as_str()
    }

    /// An immutable view of the fields, for reads: free of side effects and
    /// safe to use at any time between transactions.
    pub fn reader(&self) -> (r: &Vec<ShoobyField<ID>>)
        ensures
            *r == self.spec_fields(),
    {
        &self.items
    }

    /// The sole mutation entry point: one write transaction. The closure
    /// receives the fields, applies zero or more typed sets, and returns
    /// them; then every field that is both changed and persistent is saved
    /// (in declaration order, before any notification), the observer is
    /// told once per changed field in declaration order, and every change
    /// flag is lowered — so no change carries over into a later
    /// transaction. The first storage failure is reported after the
    /// transaction completes; without a storage backend the call always
    /// succeeds.
    pub fn write_with<F: FnOnce(Vec<ShoobyField<ID>>) -> Vec<ShoobyField<ID>>>(
        &mut self,
        f: F,
    ) -> (r: Result<(), ShoobyError>)
        requires
            call_requires(f, (old(self).spec_fields(),)),
        ensures
            final(self).spec_name() == old(self).spec_name(),
            final(self).spec_observer() == old(self).spec_observer(),
            final(self).spec_storage() == old(self).spec_storage(),
            exists|mid: Vec<ShoobyField<ID>>|
                {
                    &&& #[trigger] call_ensures(f, (old(self).spec_fields(),), mid)
                    &&& final(self).fields_view().len() == mid@.len()
                    &&& forall|i: int|
                        0 <= i < mid@.len() ==> final(self).fields_view()[i] == (FieldView {
                            dirty: false,
                            ..mid@[i]@
                        })
                },
            old(self).spec_storage() is None ==> r is Ok,
    {
        let mut items: Vec<ShoobyField<ID>> = Vec::new();
        core::mem::swap(&mut items, &mut self.items);
        let mut items = f(items);
        let ghost mid = items;
        let saved = match &self.storage {
            Some(st) => save_dirty(&items, st),
            None => None,
        };
        if let Some(obs) = &self.observer {
            notify_dirty(&items, obs);
        }
        clear_flags(&mut items);
        core::mem::swap(&mut items, &mut self.items);
        proof {
            assert(call_ensures(f, (old(self).spec_fields(),), mid));
            assert forall|i: int| 0 <= i < mid@.len() implies self.fields_view()[i] == (FieldView {
                dirty: false,
                ..mid@[i]@
            }) by {
                assert(self.fields_view()[i] == self.items@[i]@);
            }
        }
        match saved {
            None => Ok(()),
            Some(e) => Err(e),
        }
    }

    /// Applies an operation to the observer slot: the closure receives the
    /// current observer, if any, and returns the one to keep.
    pub fn observer<F: FnOnce(Option<Observer>) -> Option<Observer>>(&mut self, f: F)
        requires
            call_requires(f, (old(self).spec_observer(),)),
        ensures
            final(self).spec_name() == old(self).spec_name(),
            final(self).spec_fields() == old(self).spec_fields(),
            final(self).spec_storage() == old(self).spec_storage(),
            exists|o: Option<Observer>|
                {
                    &&& #[trigger] call_ensures(f, (old(self).spec_observer(),), o)
                    &&& final(self).spec_observer() == o
                },
    {
        let mut obs: Option<Observer> = None;
        core::mem::swap(&mut obs, &mut self.observer);
        let obs = f(obs);
        self.observer = obs;
    }

    /// Restores every field to its declared default through the same
    /// idempotent set path as the setters, then performs the persistence
    /// step for every field the reset changed — and only that: no observer
    /// is notified. On success every change flag is lowered; a storage
    /// failure is reported at once and leaves the flags raised, exactly as
    /// a failed transaction would. Without a storage backend the call
    /// always succeeds.
    pub fn factory_reset(&mut self) -> (r: Result<(), ShoobyError>)
        ensures
            final(self).spec_name() == old(self).spec_name(),
            final(self).spec_observer() == old(self).spec_observer(),
            final(self).spec_storage() == old(self).spec_storage(),
            final(self).fields_view().len() == old(self).fields_view().len(),
            forall|i: int|
                0 <= i < old(self).fields_view().len() ==> final(self).fields_view()[i] == (
                if r is Ok {
                    (FieldView { dirty: false, ..spec_reset(old(self).fields_view()[i]) })
                } else {
                    spec_reset(old(self).fields_view()[i])
                }),
            old(self).spec_storage() is None ==> r is Ok,
    {
        let ghost orig = self.items@;
        reset_fields(&mut self.items);
        let saved = match &self.storage {
            Some(st) => save_dirty(&self.items, st),
            None => None,
        };
        proof {
            assert forall|i: int| 0 <= i < orig.len() implies self.fields_view()[i] == spec_reset(
                old(self).fields_view()[i],
            ) by {
                assert(self.fields_view()[i] == self.items@[i]@);
                assert(old(self).fields_view()[i] == orig[i]@);
            }
        }
        if let Some(e) = saved {
            return Err(e);
        }
        let ghost after_reset = self.items@;
        clear_flags(&mut self.items);
        proof {
            assert forall|i: int| 0 <= i < orig.len() implies self.fields_view()[i] == (FieldView {
                dirty: false,
                ..spec_reset(old(self).fields_view()[i])
            }) by {
                assert(self.fields_view()[i] == self.items@[i]@);
                assert(after_reset[i]@ == spec_reset(orig[i]@));
                assert(old(self).fields_view()[i] == orig[i]@);
            }
        }
        Ok(())
    }

    /// Asks storage, for each persistent field, whether a prior record
    /// exists and overwrites the field's value with the loaded record when
    /// one does. Returns whether every persistent field was loaded; change
    /// flags, variant tags and all field metadata are left untouched. This
    /// is an explicit, caller-chosen boot policy: `take` applies defaults
    /// and never calls it. The first storage failure is reported at once.
    #[verifier::loop_isolation(false)]
    pub fn load_from_storage(&mut self) -> (r: Result<bool, ShoobyError>)
        ensures
            final(self).spec_name() == old(self).spec_name(),
            final(self).spec_observer() == old(self).spec_observer(),
            final(self).fields_view().len() == old(self).fields_view().len(),
            forall|i: int|
                0 <= i < old(self).fields_view().len() ==> same_shape(
                    final(self).fields_view()[i],
                    old(self).fields_view()[i],
                ),
            old(self).spec_storage() is None ==> r == Ok::<bool, ShoobyError>(false) && final(self).spec_fields() == old(self).spec_fields(),
    {
        let ghost orig = self.items@;
        let ghost name0 = self.name;
        let ghost observer0 = self.observer;
        let mut storage_slot: Option<Storage> = None;
        core::mem::swap(&mut storage_slot, &mut self.storage);
        let mut storage = match storage_slot {
            Some(st) => st,
            None => {
                return Ok(false);
            },
        };
        let mut all_loaded = true;
        let n = self.items.len();
        let mut i: usize = 0;
        while i < n
            invariant
                i <= n,
                n == self.items@.len() == orig.len(),
                forall|j: int| 0 <= j < n ==> same_shape(self.items@[j]@, orig[j]@),
                self.name == name0,
                self.observer == observer0,
            decreases n - i,
        {
            let fld = field_at_mut(&mut self.items, i);
            let loaded = match fld.load(&mut storage) {
                Ok(l) => l,
                Err(e) => {
                    self.storage = Some(storage);
                    return Err(e);
                },
            };
            let skipped = !loaded && fld.persistent();
            if skipped {
                all_loaded = false;
            }
            i = i + 1;
        }
        self.storage = Some(storage);
        proof {
            assert forall|j: int| 0 <= j < orig.len() implies same_shape(
                self.fields_view()[j],
                old(self).fields_view()[j],
            ) by {
                assert(self.fields_view()[j] == self.items@[j]@);
                assert(old(self).fields_view()[j] == orig[j]@);
            }
        }
        Ok(all_loaded)
    }
}

} // verus!
