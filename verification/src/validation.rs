use vstd::prelude::*;

verus! {

use crate::error::ContractError;
use crate::types::{
    BloodRequest, BloodUnit, UrgencyLevel, valid_required_by, valid_request_quantity,
    valid_request_record, valid_unit_expiration, valid_unit_quantity, valid_unit_record,
    min_lead_seconds, MAX_LEAD_TIME_SECONDS, MAX_REQUEST_QUANTITY_ML, MAX_SHELF_LIFE_SECONDS,
    MAX_UNIT_QUANTITY_ML, MIN_REQUEST_QUANTITY_ML, MIN_SHELF_LIFE_SECONDS, MIN_UNIT_QUANTITY_ML,
};

// ---------------------------------------------------------------------------
// Validators
//
// Pure checks, ordered so that a caller performs every check before any
// state mutation: either every rule holds and the entity is persisted, or
// nothing is. `now` is the host ledger's clock reading for the operation.
// ---------------------------------------------------------------------------

/// Checks the inputs of a unit registration: the quantity must lie in
/// [100, 600] millilitres, and the unit registered at `now` must keep
/// between one day and 42 days of shelf life.
pub fn validate_blood_registration(quantity_ml: u32, expiration_timestamp: u64, now: u64) -> (r:
    Result<(), ContractError>)
    ensures
        r is Ok <==> (valid_unit_quantity(quantity_ml) && valid_unit_expiration(
            expiration_timestamp,
            now,
        )),
        !valid_unit_quantity(quantity_ml) ==> r == Err::<(), ContractError>(
            ContractError::InvalidQuantity,
        ),
        valid_unit_quantity(quantity_ml) && !valid_unit_expiration(expiration_timestamp, now)
            ==> r == Err::<(), ContractError>(ContractError::InvalidExpiration),
{
    if quantity_ml < MIN_UNIT_QUANTITY_ML || quantity_ml > MAX_UNIT_QUANTITY_ML {
        return Err(ContractError::InvalidQuantity);
    }
    if expiration_timestamp <= now {
        return Err(ContractError::InvalidExpiration);
    }
    let remaining: u64 = expiration_timestamp - now;
    if remaining < MIN_SHELF_LIFE_SECONDS || remaining > MAX_SHELF_LIFE_SECONDS {
        return Err(ContractError::InvalidExpiration);
    }
    Ok(())
}

/// Checks the urgency-independent inputs of a request: the quantity must
/// lie in [100, 10000] millilitres, the deadline strictly in the future,
/// and the delivery address must be non-empty.
pub fn validate_request_creation(
    quantity_ml: u32,
    required_by: u64,
    delivery_address: &String,
    now: u64,
) -> (r: Result<(), ContractError>)
    ensures
        r is Ok <==> (valid_request_quantity(quantity_ml) && required_by > now
            && delivery_address@.len() > 0),
        !valid_request_quantity(quantity_ml) ==> r == Err::<(), ContractError>(
            ContractError::InvalidQuantity,
        ),
        valid_request_quantity(quantity_ml) && required_by <= now ==> r == Err::<(
        ), ContractError>(ContractError::InvalidRequiredBy),
        valid_request_quantity(quantity_ml) && required_by > now && delivery_address@.len() == 0
            ==> r == Err::<(), ContractError>(ContractError::InvalidDeliveryAddress),
{
    if quantity_ml < MIN_REQUEST_QUANTITY_ML || quantity_ml > MAX_REQUEST_QUANTITY_ML {
        return Err(ContractError::InvalidQuantity);
    }
    if required_by <= now {
        return Err(ContractError::InvalidRequiredBy);
    }
    if delivery_address.as_str().is_empty() {
        return Err(ContractError::InvalidDeliveryAddress);
    }
    Ok(())
}

/// Checks the urgency window of a request created at `now`: the deadline
/// must leave at least the urgency's minimum lead time and at most 30 days.
pub fn validate_urgency_time_window(required_by: u64, urgency: UrgencyLevel, now: u64) -> (r:
    Result<(), ContractError>)
    ensures
        r is Ok <==> valid_required_by(required_by, now, urgency),
        r is Err ==> r == Err::<(), ContractError>(ContractError::InvalidRequiredBy),
{
    if required_by <= now {
        return Err(ContractError::InvalidRequiredBy);
    }
    let lead: u64 = required_by - now;
    if lead < min_lead_seconds(urgency) || lead > MAX_LEAD_TIME_SECONDS {
        return Err(ContractError::InvalidRequiredBy);
    }
    Ok(())
}

/// Checks that a deadline has not yet passed: approval of a request whose
/// `required_by` is no longer in the future fails with `Expired`, a
/// temporal fact kept apart from structural transition legality.
pub fn validate_not_expired(required_by: u64, now: u64) -> (r: Result<(), ContractError>)
    ensures
        r is Ok <==> required_by > now,
        r is Err ==> r == Err::<(), ContractError>(ContractError::Expired),
{
    if required_by > now {
        Ok(())
    } else {
        Err(ContractError::Expired)
    }
}

impl BloodUnit {
    /// Checks the entity invariant of a freshly constructed unit against
    /// the clock reading `now` of its registration.
    pub fn validate(&self, now: u64) -> (r: Result<(), ContractError>)
        ensures
            r is Ok <==> (valid_unit_quantity(self.quantity_ml) && valid_unit_expiration(
                self.expiration_timestamp,
                now,
            )),
            self.donation_timestamp == now && r is Ok ==> valid_unit_record(*self),
            !valid_unit_quantity(self.quantity_ml) ==> r == Err::<(), ContractError>(
                ContractError::InvalidQuantity,
            ),
            valid_unit_quantity(self.quantity_ml) && !valid_unit_expiration(
                self.expiration_timestamp,
                now,
            ) ==> r == Err::<(), ContractError>(ContractError::InvalidExpiration),
    {
        validate_blood_registration(self.quantity_ml, self.expiration_timestamp, now)
    }
}

impl BloodRequest {
    /// Checks the entity invariant of a freshly constructed request against
    /// the clock reading `now` of its creation.
    pub fn validate(&self, now: u64) -> (r: Result<(), ContractError>)
        ensures
            r is Ok <==> (valid_request_quantity(self.quantity_ml) && valid_required_by(
                self.required_by,
                now,
                self.urgency,
            ) && self.delivery_address@.len() > 0),
            self.created_at == now && r is Ok ==> valid_request_record(*self),
            !valid_request_quantity(self.quantity_ml) ==> r == Err::<(), ContractError>(
                ContractError::InvalidQuantity,
            ),
    {
        if self.quantity_ml < MIN_REQUEST_QUANTITY_ML || self.quantity_ml
            > MAX_REQUEST_QUANTITY_ML {
            return Err(ContractError::InvalidQuantity);
        }
        if self.required_by <= now {
            return Err(ContractError::InvalidRequiredBy);
        }
        let lead: u64 = self.required_by - now;
        if lead < min_lead_seconds(self.urgency) || lead > MAX_LEAD_TIME_SECONDS {
            return Err(ContractError::InvalidRequiredBy);
        }
        if self.delivery_address.as_str().is_empty() {
            return Err(ContractError::InvalidDeliveryAddress);
        }
        Ok(())
    }
}

} // verus!
