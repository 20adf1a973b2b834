use vstd::prelude::*;

verus! {

/// Categorical error kinds shared by both domains.
///
/// Every fallible operation returns exactly one of these; no failure is
/// retried or downgraded inside the core. The kinds are grouped by
/// concern: lifecycle, validation, state and lookup, and permission.
#[derive(Clone, Copy, Debug, PartialEq, Eq, Structural)]
pub enum ContractError {
    // Lifecycle
    AlreadyInitialized,
    NotInitialized,
    Unauthorized,
    // Validation
    InvalidAmount,
    InvalidAddress,
    InvalidInput,
    InvalidBloodType,
    InvalidStatus,
    InvalidTimestamp,
    InvalidQuantity,
    InvalidExpiration,
    InvalidRequiredBy,
    InvalidDeliveryAddress,
    // State and lookup
    AlreadyExists,
    NotFound,
    Expired,
    BloodUnitExpired,
    DuplicateBloodUnit,
    // Permission
    InsufficientBalance,
    InsufficientPermissions,
    NotAuthorizedBloodBank,
    NotAuthorizedHospital,
    // Domain state machines
    BloodUnitNotAvailable,
    InvalidStatusTransition,
    CannotCancelRequest,
}

} // verus!
