//! The error taxonomy of the registry.

use vstd::prelude::*;

verus! {

/// Every way an operation of the registry can fail.
///
/// Each variant names exactly one failing check; a failing operation leaves
/// the store untouched and reports the first check that failed.
#[derive(Clone, Copy, Debug, PartialEq, Eq, Structural)]
pub enum ContractError {
    /// The caller is not the current administrator.
    Unauthorized,
    /// The candidate identity was rejected by the identity validator.
    InvalidIdentity,
    /// The candidate identity is already a member of the broker set.
    AlreadyBroker,
    /// The caller is not a member of the broker set.
    NotBroker,
    /// No offer is stored under the requested identifier.
    PropertyNotFound,
    /// The underlying key-value store reported an I/O failure; never produced
    /// by the core logic itself, reserved for the storage adapter.
    StorageFailure,
}

impl ContractError {
    /// A human-readable description of the error.
    pub fn message(&self) -> (r: &'static str)
        ensures
            *self is Unauthorized ==> r@ == "Unauthorized"@,
            *self is InvalidIdentity ==> r@ == "Invalid identity"@,
            *self is AlreadyBroker ==> r@ == "This address is already a broker"@,
            *self is NotBroker ==> r@ == "This address is not a broker"@,
            *self is PropertyNotFound ==> r@ == "Property with this id does not exist"@,
            *self is StorageFailure ==> r@ == "Storage failure"@,
    {
        match self {
            ContractError::Unauthorized => "Unauthorized",
            ContractError::InvalidIdentity => "Invalid identity",
            ContractError::AlreadyBroker => "This address is already a broker",
            ContractError::NotBroker => "This address is not a broker",
            ContractError::PropertyNotFound => "Property with this id does not exist",
            ContractError::StorageFailure => "Storage failure",
        }
    }
}

} // verus!
