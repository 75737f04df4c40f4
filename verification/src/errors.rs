use vstd::prelude::*;

verus! {

/// A failure of one store operation, distinguishable by kind.
///
/// Every storage-layer failure is surfaced to the caller as a typed
/// result; none are swallowed. `NotFound` is reported by lookups and
/// updates whose target row does not exist; deletes tolerate absence
/// silently.
#[derive(Clone, Copy, Debug, PartialEq, Eq, Structural)]
pub enum StoreError {
    /// The underlying medium cannot be opened or written to.
    StorageUnavailable,
    /// An insert collided with an existing primary key.
    DuplicateId,
    /// A required field is absent or of the wrong shape.
    ConstraintViolation,
    /// The target of an update or a lookup does not exist.
    NotFound,
}

impl StoreError {
    /// A human-readable description of the failure, for the
    /// presentation layer to display.
    pub fn message(&self) -> (r: &'static str)
        ensures
            *self == StoreError::StorageUnavailable ==> r@ == "storage unavailable"@,
            *self == StoreError::DuplicateId ==> r@ == "duplicate id"@,
            *self == StoreError::ConstraintViolation ==> r@ == "constraint violation"@,
            *self == StoreError::NotFound ==> r@ == "not found"@,
    {
        match self {
            StoreError::StorageUnavailable => "storage unavailable",
            StoreError::DuplicateId => "duplicate id",
            StoreError::ConstraintViolation => "constraint violation",
            StoreError::NotFound => "not found",
        }
    }
}

} // verus!
