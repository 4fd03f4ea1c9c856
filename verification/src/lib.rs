//! A statically sized, typed configuration registry.
//!
//! The registry holds a fixed, ordered set of typed fields (booleans,
//! 32-bit integers, capacity-bounded strings and fixed-size blobs),
//! validates every mutation, tracks which fields changed, and runs a
//! write-transaction protocol that persists changed fields to a storage
//! backend and notifies an observer once per changed field.

pub mod codec;
pub mod describe;
pub mod errors;
pub mod laws;
pub mod multi_observers;
pub mod registry;
pub mod shooby_field;
pub mod traits;

pub use errors::ShoobyError;
pub use multi_observers::MultiObserver;
pub use registry::ShoobyDb;
pub use shooby_field::{FieldValue, ShoobyField};
pub use traits::{ShoobyObserver, ShoobyStorage};
