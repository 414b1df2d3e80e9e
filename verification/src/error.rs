//! The typed failures an operation can surface. Every error is terminal for
//! the current invocation and is reported with no partial state mutation.

use vstd::prelude::*;

verus! {

#[derive(Clone, Copy, Debug, PartialEq, Eq)]
pub enum ContractError {
    /// The operation requires an initialized record (or, for migration, the
    /// version marker or the legacy record) that the store does not hold.
    NotFound,
    /// The caller of reset is not the owner recorded at instantiation.
    Unauthorized,
    /// The version marker names another contract: migration accepts only a
    /// record written by the same contract type.
    InvalidMigrationSource,
    /// The stored version does not compare strictly below the current one:
    /// migration never downgrades and never re-runs at the same version.
    NoDowngrade,
}

impl ContractError {
    /// A short description of the error, for callers that report it.
    pub fn message(&self) -> (r: &'static str)
        ensures
            *self is NotFound ==> r@ == "not found"@,
            *self is Unauthorized ==> r@ == "unauthorized"@,
            *self is InvalidMigrationSource ==> r@ == "can only upgrade from same contract type"@,
            *self is NoDowngrade ==> r@ == "cannot upgrade from a newer or equal contract version"@,
    {
        match self {
            ContractError::NotFound => "not found",
            ContractError::Unauthorized => "unauthorized",
            ContractError::InvalidMigrationSource => "can only upgrade from same contract type",
            ContractError::NoDowngrade => "cannot upgrade from a newer or equal contract version",
        }
    }
}

} // verus!
