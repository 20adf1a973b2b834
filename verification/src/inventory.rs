use vstd::prelude::*;

verus! {

use crate::error::ContractError;
use crate::index::{
    IdIndex, indexes_in_order, indexes_records, lemma_empty_index_records,
    lemma_index_after_create, strictly_increasing,
};
use crate::types::{
    BloodStatus, BloodType, BloodUnit, copy_unit, spec_blood_status_code, spec_blood_type_code,
    unit_eq, unit_matches, valid_unit_expiration, valid_unit_quantity, valid_unit_record,
};
use crate::validation::validate_blood_registration;

// ---------------------------------------------------------------------------
// Unit registry
//
// One domain of the network: the registry of physical blood units donated
// by banks. The struct carries the whole persisted state of the domain:
// the admin slot, the identity counter, the record store (units in
// creation order, the unit with id i at position i - 1) and the four
// secondary indexes. The host hands every operation the ledger clock
// reading `now` and guarantees that the caller named in the arguments
// authorized the call.
// ---------------------------------------------------------------------------

pub struct InventoryContract {
    /// The admin, once `initialize` has run; the admin is the only
    /// authorized blood bank in the current scope.
    pub admin: Option<u64>,
    /// Identity allocator: the number of ids handed out so far.
    pub unit_counter: u64,
    /// Record store: the unit with id `i` lives at position `i - 1`.
    pub units: Vec<BloodUnit>,
    /// Secondary index by blood type code.
    pub blood_type_index: IdIndex,
    /// Secondary index by owning bank.
    pub bank_index: IdIndex,
    /// Secondary index by status code.
    pub status_index: IdIndex,
    /// Secondary index by donor; anonymous units are filed nowhere.
    pub donor_index: IdIndex,
}

/// The blood-type index files a unit under its blood type's code.
pub open spec fn unit_type_key() -> spec_fn(BloodUnit) -> Option<u64> {
    |u: BloodUnit| Some(spec_blood_type_code(u.blood_type))
}

/// The bank index files a unit under its owning bank.
pub open spec fn unit_bank_key() -> spec_fn(BloodUnit) -> Option<u64> {
    |u: BloodUnit| Some(u.bank_id)
}

/// The status index files a unit under its status code.
pub open spec fn unit_status_key() -> spec_fn(BloodUnit) -> Option<u64> {
    |u: BloodUnit| Some(spec_blood_status_code(u.status))
}

/// The donor index files a unit under its donor, where one is named.
pub open spec fn unit_donor_key() -> spec_fn(BloodUnit) -> Option<u64> {
    |u: BloodUnit| u.donor_id
}

impl InventoryContract {
    pub open spec fn spec_is_initialized(self) -> bool {
        self.admin is Some
    }

    /// In the current scope the admin is the only authorized bank.
    pub open spec fn spec_is_authorized_bank(self, bank: u64) -> bool {
        self.admin == Some(bank)
    }

    /// The record store as a point lookup by id.
    pub open spec fn spec_get_unit(self, id: u64) -> Option<BloodUnit> {
        if 1 <= id <= self.units@.len() {
            Some(self.units@[id - 1])
        } else {
            None
        }
    }

    /// The global invariant of the domain: the counter matches the store,
    /// nothing precedes initialization, ids are sequential, every stored
    /// record satisfies its entity invariant, and all four indexes file
    /// exactly the right ids, in creation order.
    pub open spec fn wf(self) -> bool {
        &&& self.unit_counter == self.units@.len()
        &&& (self.admin is None ==> self.units@.len() == 0)
        &&& forall|i: int| 0 <= i < self.units@.len() ==> (#[trigger] self.units@[i]).id == i + 1
        &&& forall|i: int|
            0 <= i < self.units@.len() ==> valid_unit_record(#[trigger] self.units@[i])
        &&& indexes_records(self.blood_type_index, self.units@, unit_type_key())
        &&& indexes_in_order(self.blood_type_index)
        &&& indexes_records(self.bank_index, self.units@, unit_bank_key())
        &&& indexes_in_order(self.bank_index)
        &&& indexes_records(self.status_index, self.units@, unit_status_key())
        &&& indexes_in_order(self.status_index)
        &&& indexes_records(self.donor_index, self.units@, unit_donor_key())
        &&& indexes_in_order(self.donor_index)
    }

    /// An uninitialized registry: no admin, no ids handed out, nothing
    /// stored, every bucket empty.
    pub fn new() -> (s: InventoryContract)
        ensures
            s.wf(),
            !s.spec_is_initialized(),
            s.unit_counter == 0,
            s.units@.len() == 0,
            forall|k: u64| #[trigger] s.blood_type_index.bucket(k) == Seq::<u64>::empty(),
            forall|k: u64| #[trigger] s.bank_index.bucket(k) == Seq::<u64>::empty(),
            forall|k: u64| #[trigger] s.status_index.bucket(k) == Seq::<u64>::empty(),
            forall|k: u64| #[trigger] s.donor_index.bucket(k) == Seq::<u64>::empty(),
    {
        let s = InventoryContract {
            admin: None,
            unit_counter: 0,
            units: Vec::new(),
            blood_type_index: IdIndex::new(),
            bank_index: IdIndex::new(),
            status_index: IdIndex::new(),
            donor_index: IdIndex::new(),
        };
        proof {
            lemma_empty_index_records(s.blood_type_index, s.units@, unit_type_key());
            lemma_empty_index_records(s.bank_index, s.units@, unit_bank_key());
            lemma_empty_index_records(s.status_index, s.units@, unit_status_key());
            lemma_empty_index_records(s.donor_index, s.units@, unit_donor_key());
        }
        s
    }

    /// Assigns the admin once; a second call fails and changes nothing.
    /// The host has authenticated `admin` before the call runs.
    pub fn initialize(&mut self, admin: u64) -> (r: Result<(), ContractError>)
        requires
            old(self).wf(),
        ensures
            final(self).wf(),
            old(self).spec_is_initialized() ==> r == Err::<(), ContractError>(
                ContractError::AlreadyInitialized,
            ) && *final(self) == *old(self),
            !old(self).spec_is_initialized() ==> ({
                &&& r == Ok::<(), ContractError>(())
                &&& final(self).admin == Some(admin)
                &&& final(self).unit_counter == old(self).unit_counter
                &&& final(self).units == old(self).units
                &&& final(self).blood_type_index == old(self).blood_type_index
                &&& final(self).bank_index == old(self).bank_index
                &&& final(self).status_index == old(self).status_index
                &&& final(self).donor_index == old(self).donor_index
            }),
    {
        if self.admin.is_some() {
            return Err(ContractError::AlreadyInitialized);
        }
        set_admin(self, admin);
        Ok(())
    }

    /// Registers a donated unit. The full order of checks: the registry
    /// must be initialized, the bank authorized, the quantity within
    /// [100, 600] ml and the expiration inside the shelf-life window read
    /// against the ledger clock `now`; only then is an id allocated, the
    /// entity stored and every applicable index extended. A rejected call
    /// leaves the whole state untouched, the identity counter included.
    /// The host has authenticated `bank_id` before the call runs.
    pub fn register_blood(
        &mut self,
        bank_id: u64,
        blood_type: BloodType,
        quantity_ml: u32,
        expiration_timestamp: u64,
        donor_id: Option<u64>,
        now: u64,
    ) -> (r: Result<u64, ContractError>)
        requires
            old(self).wf(),
            old(self).units@.len() < usize::MAX,
        ensures
            final(self).wf(),
            !old(self).spec_is_initialized() ==> r == Err::<u64, ContractError>(
                ContractError::NotInitialized,
            ) && *final(self) == *old(self),
            old(self).spec_is_initialized() && !old(self).spec_is_authorized_bank(bank_id) ==> r
                == Err::<u64, ContractError>(ContractError::NotAuthorizedBloodBank) && *final(self)
                == *old(self),
            old(self).spec_is_initialized() && old(self).spec_is_authorized_bank(bank_id)
                && !valid_unit_quantity(quantity_ml) ==> r == Err::<u64, ContractError>(
                ContractError::InvalidQuantity,
            ) && *final(self) == *old(self),
            old(self).spec_is_initialized() && old(self).spec_is_authorized_bank(bank_id)
                && valid_unit_quantity(quantity_ml) && !valid_unit_expiration(
                expiration_timestamp,
                now,
            ) ==> r == Err::<u64, ContractError>(ContractError::InvalidExpiration) && *final(self)
                == *old(self),
            old(self).spec_is_initialized() && old(self).spec_is_authorized_bank(bank_id)
                && valid_unit_quantity(quantity_ml) && valid_unit_expiration(
                expiration_timestamp,
                now,
            ) ==> ({
                let id = (old(self).units@.len() + 1) as u64;
                &&& r == Ok::<u64, ContractError>(id)
                &&& final(self).units@.len() == old(self).units@.len() + 1
                &&& (forall|i: int|
                    0 <= i < old(self).units@.len() ==> final(self).units@[i] == old(
                        self,
                    ).units@[i])
                &&& unit_matches(
                    final(self).units@[id - 1],
                    id,
                    blood_type,
                    quantity_ml,
                    bank_id,
                    donor_id,
                    expiration_timestamp,
                    now,
                )
                &&& final(self).admin == old(self).admin
                &&& final(self).unit_counter == old(self).unit_counter + 1
                &&& final(self).blood_type_index.bucket(spec_blood_type_code(blood_type)) == old(
                    self,
                ).blood_type_index.bucket(spec_blood_type_code(blood_type)).push(id)
                &&& final(self).bank_index.bucket(bank_id) == old(self).bank_index.bucket(
                    bank_id,
                ).push(id)
                &&& final(self).status_index.bucket(
                    spec_blood_status_code(BloodStatus::Available),
                ) == old(self).status_index.bucket(
                    spec_blood_status_code(BloodStatus::Available),
                ).push(id)
                &&& (donor_id matches Some(d) ==> final(self).donor_index.bucket(d) == old(
                    self,
                ).donor_index.bucket(d).push(id) && (forall|k: u64|
                    k != d ==> #[trigger] final(self).donor_index.bucket(k) == old(
                        self,
                    ).donor_index.bucket(k)))
                &&& (donor_id is None ==> final(self).donor_index == old(self).donor_index)
                &&& (forall|k: u64|
                    k != spec_blood_type_code(blood_type) ==> #[trigger] final(self).blood_type_index.bucket(k) == old(self).blood_type_index.bucket(k))
                &&& (forall|k: u64|
                    k != bank_id ==> #[trigger] final(self).bank_index.bucket(k) == old(
                        self,
                    ).bank_index.bucket(k))
                &&& (forall|k: u64|
                    k != spec_blood_status_code(BloodStatus::Available) ==> #[trigger] final(self).status_index.bucket(k) == old(self).status_index.bucket(k))
            }),
    {
        // 1. Bank authentication is the host's duty and precedes this call.
        // 2. The registry must be initialized.
        if self.admin.is_none() {
            return Err(ContractError::NotInitialized);
        }
        // 3. The bank must be authorized.
        if !is_authorized_bank(self, bank_id) {
            return Err(ContractError::NotAuthorizedBloodBank);
        }
        // 4. Validate the inputs; nothing has been written yet, so a
        //    rejection leaves no trace.
        match validate_blood_registration(quantity_ml, expiration_timestamp, now) {
            Ok(()) => (),
            Err(e) => {
                return Err(e);
            },
        }
        // 5. Allocate the identity: the final step before construction,
        //    so no failed validation ever consumes an id.
        let blood_unit_id: u64 = increment_blood_unit_id(self);
        // 6. Construct the entity.
        let blood_unit = BloodUnit {
            id: blood_unit_id,
            blood_type,
            quantity_ml,
            bank_id,
            donor_id,
            donation_timestamp: now,
            expiration_timestamp,
            status: BloodStatus::Available,
            metadata: Vec::new(),
        };
        // 7. Check the entity invariant of the constructed record.
        match blood_unit.validate(now) {
            Ok(()) => (),
            Err(e) => {
                return Err(e);
            },
        }
        // 8. Extend the indexes and persist the record.
        add_to_blood_type_index(self, &blood_unit);
        add_to_bank_index(self, &blood_unit);
        add_to_status_index(self, &blood_unit);
        add_to_donor_index(self, &blood_unit);
        set_blood_unit(self, blood_unit);
        proof {
            let pre = *old(self);
            let post = *self;
            assert(post.units@ =~= pre.units@.push(post.units@[pre.units@.len() as int]));
            lemma_index_after_create(
                pre.blood_type_index,
                post.blood_type_index,
                pre.units@,
                post.units@,
                unit_type_key(),
                blood_unit_id,
            );
            lemma_index_after_create(
                pre.bank_index,
                post.bank_index,
                pre.units@,
                post.units@,
                unit_bank_key(),
                blood_unit_id,
            );
            lemma_index_after_create(
                pre.status_index,
                post.status_index,
                pre.units@,
                post.units@,
                unit_status_key(),
                blood_unit_id,
            );
            lemma_index_after_create(
                pre.donor_index,
                post.donor_index,
                pre.units@,
                post.units@,
                unit_donor_key(),
                blood_unit_id,
            );
        }
        Ok(blood_unit_id)
    }

    /// Looks a unit up by id; a missing id is reported as `NotFound`
    /// rather than as a raw absence.
    pub fn get_blood_unit(&self, blood_unit_id: u64) -> (r: Result<BloodUnit, ContractError>)
        ensures
            match self.spec_get_unit(blood_unit_id) {
                Some(u) => r matches Ok(got) && unit_eq(got, u),
                None => r == Err::<BloodUnit, ContractError>(ContractError::NotFound),
            },
    {
        match get_blood_unit(self, blood_unit_id) {
            Some(u) => Ok(copy_unit(u)),
            None => Err(ContractError::NotFound),
        }
    }
}

// ---------------------------------------------------------------------------
// Storage layer
//
// The persistent substrate of the domain, as free functions over the
// state, mirroring the key construction of the stored values: the admin
// slot, the identity counter, the record store and the index buckets.
// ---------------------------------------------------------------------------

/// Reads the admin slot; the registry must be initialized.
pub fn get_admin(s: &InventoryContract) -> (r: u64)
    requires
        s.spec_is_initialized(),
    ensures
        s.admin == Some(r),
{
    match s.admin {
        Some(a) => a,
        None => 0,  // unreachable: the registry is initialized
    }
}

/// Writes the admin slot.
pub fn set_admin(s: &mut InventoryContract, admin: u64)
    ensures
        final(s).admin == Some(admin),
        final(s).unit_counter == old(s).unit_counter,
        final(s).units == old(s).units,
        final(s).blood_type_index == old(s).blood_type_index,
        final(s).bank_index == old(s).bank_index,
        final(s).status_index == old(s).status_index,
        final(s).donor_index == old(s).donor_index,
{
    s.admin = Some(admin);
}

/// Whether `bank` may register blood: in the current scope only the
/// admin is an authorized bank.
pub fn is_authorized_bank(s: &InventoryContract, bank: u64) -> (r: bool)
    requires
        s.spec_is_initialized(),
    ensures
        r == s.spec_is_authorized_bank(bank),
{
    let admin = get_admin(s);
    bank == admin
}

/// Reads the identity counter. A read before initialization fails with
/// the lifecycle error instead of yielding a zero-valued default.
pub fn get_blood_unit_counter(s: &InventoryContract) -> (r: Result<u64, ContractError>)
    ensures
        s.spec_is_initialized() ==> r == Ok::<u64, ContractError>(s.unit_counter),
        !s.spec_is_initialized() ==> r == Err::<u64, ContractError>(ContractError::NotInitialized),
{
    if s.admin.is_some() {
        Ok(s.unit_counter)
    } else {
        Err(ContractError::NotInitialized)
    }
}

/// Advances the identity counter and returns the fresh id; ids are never
/// reused. Touches nothing but the counter.
pub fn increment_blood_unit_id(s: &mut InventoryContract) -> (r: u64)
    requires
        old(s).unit_counter < u64::MAX,
    ensures
        final(s).unit_counter == old(s).unit_counter + 1,
        r == final(s).unit_counter,
        final(s).admin == old(s).admin,
        final(s).units == old(s).units,
        final(s).blood_type_index == old(s).blood_type_index,
        final(s).bank_index == old(s).bank_index,
        final(s).status_index == old(s).status_index,
        final(s).donor_index == old(s).donor_index,
{
    let next_id: u64 = s.unit_counter + 1;
    s.unit_counter = next_id;
    next_id
}

/// Stores a unit under its id: the fresh id extends the store, a live id
/// overwrites its record. Touches nothing but the record store.
pub fn set_blood_unit(s: &mut InventoryContract, blood_unit: BloodUnit)
    requires
        1 <= blood_unit.id <= old(s).units@.len() + 1,
        old(s).units@.len() < usize::MAX,
    ensures
        blood_unit.id == old(s).units@.len() + 1 ==> final(s).units@ == old(s).units@.push(
            blood_unit,
        ),
        blood_unit.id <= old(s).units@.len() ==> final(s).units@ == old(s).units@.update(
            blood_unit.id - 1,
            blood_unit,
        ),
        final(s).admin == old(s).admin,
        final(s).unit_counter == old(s).unit_counter,
        final(s).blood_type_index == old(s).blood_type_index,
        final(s).bank_index == old(s).bank_index,
        final(s).status_index == old(s).status_index,
        final(s).donor_index == old(s).donor_index,
{
    let n: usize = s.units.len();
    if blood_unit.id as usize == n + 1 {
        s.units.push(blood_unit);
    } else {
        let i: usize = (blood_unit.id - 1) as usize;
        s.units.remove(i);
        s.units.insert(i, blood_unit);
        proof {
            assert(s.units@ =~= old(s).units@.update(blood_unit.id - 1, blood_unit));
        }
    }
}

/// Looks a unit up by id in the record store.
pub fn get_blood_unit(s: &InventoryContract, id: u64) -> (r: Option<&BloodUnit>)
    ensures
        match r {
            Some(u) => s.spec_get_unit(id) == Some(*u),
            None => s.spec_get_unit(id) is None,
        },
{
    if 1 <= id && id <= s.units.len() as u64 {
        Some(&s.units[(id - 1) as usize])
    } else {
        None
    }
}

/// Whether the record store holds a unit under `id`.
pub fn blood_unit_exists(s: &InventoryContract, id: u64) -> (r: bool)
    ensures
        r == (s.spec_get_unit(id) is Some),
{
    1 <= id && id <= s.units.len() as u64
}

/// Files a unit's id in the bucket of its blood type.
pub fn add_to_blood_type_index(s: &mut InventoryContract, blood_unit: &BloodUnit)
    requires
        old(s).blood_type_index.wf(),
    ensures
        final(s).blood_type_index.wf(),
        final(s).blood_type_index.bucket(spec_blood_type_code(blood_unit.blood_type)) == old(
            s,
        ).blood_type_index.bucket(spec_blood_type_code(blood_unit.blood_type)).push(blood_unit.id),
        forall|k: u64|
            k != spec_blood_type_code(blood_unit.blood_type)
                ==> #[trigger] final(s).blood_type_index.bucket(k) == old(
                s,
            ).blood_type_index.bucket(k),
        final(s).admin == old(s).admin,
        final(s).unit_counter == old(s).unit_counter,
        final(s).units == old(s).units,
        final(s).bank_index == old(s).bank_index,
        final(s).status_index == old(s).status_index,
        final(s).donor_index == old(s).donor_index,
{
    let key: u64 = crate::types::blood_type_code(blood_unit.blood_type);
    s.blood_type_index.append(key, blood_unit.id);
}

/// Files a unit's id in the bucket of its owning bank.
pub fn add_to_bank_index(s: &mut InventoryContract, blood_unit: &BloodUnit)
    requires
        old(s).bank_index.wf(),
    ensures
        final(s).bank_index.wf(),
        final(s).bank_index.bucket(blood_unit.bank_id) == old(s).bank_index.bucket(
            blood_unit.bank_id,
        ).push(blood_unit.id),
        forall|k: u64|
            k != blood_unit.bank_id ==> #[trigger] final(s).bank_index.bucket(k) == old(
                s,
            ).bank_index.bucket(k),
        final(s).admin == old(s).admin,
        final(s).unit_counter == old(s).unit_counter,
        final(s).units == old(s).units,
        final(s).blood_type_index == old(s).blood_type_index,
        final(s).status_index == old(s).status_index,
        final(s).donor_index == old(s).donor_index,
{
    s.bank_index.append(blood_unit.bank_id, blood_unit.id);
}

/// Files a unit's id in the bucket of its status.
pub fn add_to_status_index(s: &mut InventoryContract, blood_unit: &BloodUnit)
    requires
        old(s).status_index.wf(),
    ensures
        final(s).status_index.wf(),
        final(s).status_index.bucket(spec_blood_status_code(blood_unit.status)) == old(
            s,
        ).status_index.bucket(spec_blood_status_code(blood_unit.status)).push(blood_unit.id),
        forall|k: u64|
            k != spec_blood_status_code(blood_unit.status) ==> #[trigger] final(s).status_index.bucket(k) == old(s).status_index.bucket(k),
        final(s).admin == old(s).admin,
        final(s).unit_counter == old(s).unit_counter,
        final(s).units == old(s).units,
        final(s).blood_type_index == old(s).blood_type_index,
        final(s).bank_index == old(s).bank_index,
        final(s).donor_index == old(s).donor_index,
{
    let key: u64 = crate::types::blood_status_code(blood_unit.status);
    s.status_index.append(key, blood_unit.id);
}

/// Files a unit's id in the bucket of its donor; an anonymous donation
/// is filed nowhere.
pub fn add_to_donor_index(s: &mut InventoryContract, blood_unit: &BloodUnit)
    requires
        old(s).donor_index.wf(),
    ensures
        final(s).donor_index.wf(),
        (blood_unit.donor_id matches Some(d) ==> final(s).donor_index.bucket(d) == old(
            s,
        ).donor_index.bucket(d).push(blood_unit.id) && (forall|k: u64|
            k != d ==> #[trigger] final(s).donor_index.bucket(k) == old(s).donor_index.bucket(k))),
        (blood_unit.donor_id is None ==> final(s).donor_index == old(s).donor_index),
        final(s).admin == old(s).admin,
        final(s).unit_counter == old(s).unit_counter,
        final(s).units == old(s).units,
        final(s).blood_type_index == old(s).blood_type_index,
        final(s).bank_index == old(s).bank_index,
        final(s).status_index == old(s).status_index,
{
    match blood_unit.donor_id {
        Some(donor) => {
            s.donor_index.append(donor, blood_unit.id);
        },
        None => (),
    }
}

// ---------------------------------------------------------------------------
// Laws of the unit registry
// ---------------------------------------------------------------------------

/// Identity monotonicity: ids are handed out sequentially, so the unit
/// stored at position `i` of the store carries id `i + 1`; together with
/// the creation contract — the Nth successful registration returns an id
/// equal to the store's new length, and a rejected one changes nothing —
/// the Nth successful registration yields id N, however many rejected
/// attempts came between.
pub proof fn lemma_identity_monotonic(s: InventoryContract, i: int)
    requires
        s.wf(),
        0 <= i < s.units@.len(),
    ensures
        s.units@[i].id == i + 1,
{
}

/// Round trip: looking up the id a successful registration returned
/// yields a unit equal in every field to what was stored for it.
pub proof fn lemma_register_round_trip(
    s: InventoryContract,
    id: u64,
    blood_type: BloodType,
    quantity_ml: u32,
    bank_id: u64,
    donor_id: Option<u64>,
    expiration_timestamp: u64,
    now: u64,
)
    requires
        s.wf(),
        1 <= id <= s.units@.len(),
        unit_matches(
            s.units@[id - 1],
            id,
            blood_type,
            quantity_ml,
            bank_id,
            donor_id,
            expiration_timestamp,
            now,
        ),
    ensures
        s.spec_get_unit(id) matches Some(u) && unit_matches(
            u,
            id,
            blood_type,
            quantity_ml,
            bank_id,
            donor_id,
            expiration_timestamp,
            now,
        ),
{
}

/// Index consistency for the unit registry: every bucket of every
/// dimension files exactly the ids of the units carrying its key, in
/// creation order.
pub proof fn lemma_unit_indexes_consistent(s: InventoryContract, k: u64, id: u64)
    requires
        s.wf(),
    ensures
        s.blood_type_index.bucket(k).contains(id) <==> (1 <= id <= s.units@.len()
            && spec_blood_type_code(s.units@[id - 1].blood_type) == k),
        s.bank_index.bucket(k).contains(id) <==> (1 <= id <= s.units@.len() && s.units@[id
            - 1].bank_id == k),
        s.donor_index.bucket(k).contains(id) <==> (1 <= id <= s.units@.len() && s.units@[id
            - 1].donor_id == Some(k)),
        strictly_increasing(s.blood_type_index.bucket(k)),
        strictly_increasing(s.bank_index.bucket(k)),
        strictly_increasing(s.donor_index.bucket(k)),
{
}

/// An anonymous donation is filed in no donor bucket at all.
pub proof fn lemma_anonymous_donor_unindexed(s: InventoryContract, i: int, donor: u64)
    requires
        s.wf(),
        0 <= i < s.units@.len(),
        s.units@[i].donor_id is None,
    ensures
        !s.donor_index.bucket(donor).contains(s.units@[i].id),
{
    assert(s.units@[i].id == i + 1);
}

} // verus!
