//! The registry's two external collaborators: change observers and
//! persistent storage backends.

use crate::errors::ShoobyError;
use crate::shooby_field::ShoobyField;
use vstd::prelude::*;

verus! {

/// An external collaborator notified once per changed field at the end of
/// each write transaction.
pub trait ShoobyObserver {
    type ID;

    /// Called with a reference to the field that changed, after that field
    /// was persisted (when storage is present).
    fn update(&self, field: &ShoobyField<Self::ID>);
}

/// An external persistence backend for the registry's persistent fields.
pub trait ShoobyStorage {
    type ID;

    /// Persists the exact byte representation of one field, keyed by its
    /// stable identity.
    fn save_raw(&self, id: Self::ID, data: &[u8]) -> Result<(), ShoobyError>;

    /// Fills the buffer with the bytes previously saved under the given
    /// identity. Returns `true` if a record existed and was loaded, `false`
    /// if no prior record exists (which is not an error).
    fn load_raw(&mut self, id: Self::ID, data: &mut Vec<u8>) -> Result<bool, ShoobyError>;
}

} // verus!
