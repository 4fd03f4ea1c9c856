//! The closed set of failure kinds shared by all registry operations.

use vstd::prelude::*;

verus! {

/// Every fallible operation of the registry reports one of these kinds.
#[derive(Debug, Clone, Copy, PartialEq, Eq, Structural)]
pub enum ShoobyError {
    /// Unclassified failure, reserved for storage backends' own surprises.
    Unknown,
    /// A numeric value outside a configured range, a payload larger than a
    /// field's fixed capacity, or a full observer fan-out.
    OutOfBounds,
    /// A numeric narrowing failure, or a malformed text payload.
    InvalidTypeConversion,
    /// A structural size disagreement for a blob or a loaded record.
    InvalidSize,
    /// An accessor invoked against a field whose variant tag does not match.
    InvalidType,
}

impl ShoobyError {
    /// A stable diagnostic description of the error kind.
    pub fn as_str(&self) -> (r: &'static str)
        ensures
            *self is Unknown ==> r@ == "Unknown error"@,
            *self is OutOfBounds ==> r@ == "Out of bounds"@,
            *self is InvalidTypeConversion ==> r@ == "Invalid type conversion"@,
            *self is InvalidSize ==> r@ == "Invalid size"@,
            *self is InvalidType ==> r@ == "Invalid type"@,
    {
        match self {
            ShoobyError::Unknown => "Unknown error",
            ShoobyError::OutOfBounds => "Out of bounds",
            ShoobyError::InvalidTypeConversion => "Invalid type conversion",
            ShoobyError::InvalidSize => "Invalid size",
            ShoobyError::InvalidType => "Invalid type",
        }
    }
}

} // verus!
