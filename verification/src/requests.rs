use vstd::prelude::*;

verus! {

use crate::error::ContractError;
use crate::index::{
    IdIndex, buckets_distinct, contains_id, indexes_in_order, indexes_records,
    lemma_empty_index_records, lemma_in_order_implies_distinct, lemma_index_after_create,
    lemma_index_after_create_distinct, lemma_index_after_move, lemma_index_unchanged,
    lemma_remove_value_membership, remove_first, strictly_increasing,
};
use crate::types::{
    BloodRequest, BloodType, RequestStatus, UrgencyLevel, copy_request, request_eq,
    request_eq_except_status, request_matches, spec_blood_type_code, spec_request_status_code,
    spec_request_status_can_transition, spec_request_status_can_cancel, spec_urgency_code,
    valid_request_quantity, valid_request_record, valid_required_by,
};
use crate::validation::{validate_not_expired, validate_request_creation,
    validate_urgency_time_window};

// ---------------------------------------------------------------------------
// Request ledger
//
// The second domain of the network: the ledger of blood requests issued by
// hospitals. The struct carries the whole persisted state of the domain:
// the admin slot, the allow-list of authorized hospitals, the identity
// counter, the record store (requests in creation order, the request with
// id i at position i - 1) and the four secondary indexes. The host hands
// every operation the ledger clock reading `now` where one is needed and
// guarantees that the caller named in the arguments authorized the call.
// ---------------------------------------------------------------------------

pub struct RequestContract {
    /// The admin, once `initialize` has run; the admin manages the
    /// allow-list, approves requests and counts as authorized itself.
    pub admin: Option<u64>,
    /// Hospitals the admin has authorized, in authorization order.
    pub authorized_hospitals: Vec<u64>,
    /// Identity allocator: the number of ids handed out so far.
    pub request_counter: u64,
    /// Record store: the request with id `i` lives at position `i - 1`.
    pub requests: Vec<BloodRequest>,
    /// Secondary index by owning hospital.
    pub hospital_index: IdIndex,
    /// Secondary index by blood type code.
    pub blood_type_index: IdIndex,
    /// Secondary index by status code; its buckets are rewritten on a
    /// status change, unlike every other dimension.
    pub status_index: IdIndex,
    /// Secondary index by urgency code.
    pub urgency_index: IdIndex,
}

/// The hospital index files a request under its owning hospital.
pub open spec fn req_hospital_key() -> spec_fn(BloodRequest) -> Option<u64> {
    |r: BloodRequest| Some(r.hospital_id)
}

/// The blood-type index files a request under its blood type's code.
pub open spec fn req_type_key() -> spec_fn(BloodRequest) -> Option<u64> {
    |r: BloodRequest| Some(spec_blood_type_code(r.blood_type))
}

/// The status index files a request under its current status's code.
pub open spec fn req_status_key() -> spec_fn(BloodRequest) -> Option<u64> {
    |r: BloodRequest| Some(spec_request_status_code(r.status))
}

/// The urgency index files a request under its urgency's code.
pub open spec fn req_urgency_key() -> spec_fn(BloodRequest) -> Option<u64> {
    |r: BloodRequest| Some(spec_urgency_code(r.urgency))
}

impl RequestContract {
    pub open spec fn spec_is_initialized(self) -> bool {
        self.admin is Some
    }

    /// A hospital is authorized if it stands on the allow-list; the admin
    /// is authorized without standing there.
    pub open spec fn spec_is_authorized_hospital(self, hospital: u64) -> bool {
        self.admin == Some(hospital) || self.authorized_hospitals@.contains(hospital)
    }

    /// The record store as a point lookup by id.
    pub open spec fn spec_get_request(self, id: u64) -> Option<BloodRequest> {
        if 1 <= id <= self.requests@.len() {
            Some(self.requests@[id - 1])
        } else {
            None
        }
    }

    /// The global invariant of the domain: the counter matches the store,
    /// nothing precedes initialization, ids are sequential, every stored
    /// record satisfies its entity invariant, the allow-list holds no
    /// hospital twice, the creation-ordered indexes file exactly the right
    /// ids in creation order, and the status index files every id in
    /// exactly the bucket of its record's current status, duplicate-free.
    pub open spec fn wf(self) -> bool {
        &&& self.request_counter == self.requests@.len()
        &&& (self.admin is None ==> self.requests@.len() == 0)
        &&& (self.admin is None ==> self.authorized_hospitals@.len() == 0)
        &&& self.authorized_hospitals@.no_duplicates()
        &&& forall|i: int|
            0 <= i < self.requests@.len() ==> (#[trigger] self.requests@[i]).id == i + 1
        &&& forall|i: int|
            0 <= i < self.requests@.len() ==> valid_request_record(#[trigger] self.requests@[i])
        &&& indexes_records(self.hospital_index, self.requests@, req_hospital_key())
        &&& indexes_in_order(self.hospital_index)
        &&& indexes_records(self.blood_type_index, self.requests@, req_type_key())
        &&& indexes_in_order(self.blood_type_index)
        &&& indexes_records(self.urgency_index, self.requests@, req_urgency_key())
        &&& indexes_in_order(self.urgency_index)
        &&& indexes_records(self.status_index, self.requests@, req_status_key())
        &&& buckets_distinct(self.status_index)
    }

    /// An uninitialized ledger: no admin, no hospitals, no ids handed
    /// out, nothing stored, every bucket empty.
    pub fn new() -> (s: RequestContract)
        ensures
            s.wf(),
            !s.spec_is_initialized(),
            s.request_counter == 0,
            s.requests@.len() == 0,
            s.authorized_hospitals@.len() == 0,
            forall|k: u64| #[trigger] s.hospital_index.bucket(k) == Seq::<u64>::empty(),
            forall|k: u64| #[trigger] s.blood_type_index.bucket(k) == Seq::<u64>::empty(),
            forall|k: u64| #[trigger] s.status_index.bucket(k) == Seq::<u64>::empty(),
            forall|k: u64| #[trigger] s.urgency_index.bucket(k) == Seq::<u64>::empty(),
    {
        let s = RequestContract {
            admin: None,
            authorized_hospitals: Vec::new(),
            request_counter: 0,
            requests: Vec::new(),
            hospital_index: IdIndex::new(),
            blood_type_index: IdIndex::new(),
            status_index: IdIndex::new(),
            urgency_index: IdIndex::new(),
        };
        proof {
            lemma_empty_index_records(s.hospital_index, s.requests@, req_hospital_key());
            lemma_empty_index_records(s.blood_type_index, s.requests@, req_type_key());
            lemma_empty_index_records(s.urgency_index, s.requests@, req_urgency_key());
            lemma_empty_index_records(s.status_index, s.requests@, req_status_key());
            lemma_in_order_implies_distinct(s.status_index);
        }
        s
    }

    /// Assigns the admin once; a second call fails and changes nothing.
    /// The host has authenticated `admin` before the call runs.
    pub fn initialize(&mut self, admin: u64) -> (r: Result<(), ContractError>)
        requires
            old(self).wf(),
        ensures
            final(self).wf(),
            old(self).spec_is_initialized() ==> r == Err::<(), ContractError>(
                ContractError::AlreadyInitialized,
            ) && *final(self) == *old(self),
            !old(self).spec_is_initialized() ==> ({
                &&& r == Ok::<(), ContractError>(())
                &&& final(self).admin == Some(admin)
                &&& final(self).authorized_hospitals == old(self).authorized_hospitals
                &&& final(self).request_counter == old(self).request_counter
                &&& final(self).requests == old(self).requests
                &&& final(self).hospital_index == old(self).hospital_index
                &&& final(self).blood_type_index == old(self).blood_type_index
                &&& final(self).status_index == old(self).status_index
                &&& final(self).urgency_index == old(self).urgency_index
            }),
    {
        if self.admin.is_some() {
            return Err(ContractError::AlreadyInitialized);
        }
        self.admin = Some(admin);
        Ok(())
    }

    /// Puts a hospital on the allow-list; a hospital already on it stays
    /// listed once. Only the admin may call this, which the host has
    /// verified before the call runs.
    pub fn authorize_hospital(&mut self, hospital: u64) -> (r: Result<(), ContractError>)
        requires
            old(self).wf(),
        ensures
            final(self).wf(),
            !old(self).spec_is_initialized() ==> r == Err::<(), ContractError>(
                ContractError::NotInitialized,
            ) && *final(self) == *old(self),
            old(self).spec_is_initialized() ==> ({
                &&& r == Ok::<(), ContractError>(())
                &&& final(self).spec_is_authorized_hospital(hospital)
                &&& (old(self).authorized_hospitals@.contains(hospital) ==> final(self).authorized_hospitals == old(self).authorized_hospitals)
                &&& (!old(self).authorized_hospitals@.contains(hospital) ==> final(self).authorized_hospitals@ == old(self).authorized_hospitals@.push(hospital))
                &&& (forall|x: u64|
                    x != hospital ==> (final(self).spec_is_authorized_hospital(x) <==> old(
                        self,
                    ).spec_is_authorized_hospital(x)))
                &&& final(self).admin == old(self).admin
                &&& final(self).request_counter == old(self).request_counter
                &&& final(self).requests == old(self).requests
                &&& final(self).hospital_index == old(self).hospital_index
                &&& final(self).blood_type_index == old(self).blood_type_index
                &&& final(self).status_index == old(self).status_index
                &&& final(self).urgency_index == old(self).urgency_index
            }),
    {
        if self.admin.is_none() {
            return Err(ContractError::NotInitialized);
        }
        if !contains_id(&self.authorized_hospitals, hospital) {
            self.authorized_hospitals.push(hospital);
            proof {
                crate::index::lemma_push_contains(
                    old(self).authorized_hospitals@,
                    hospital,
                    hospital,
                );
                assert forall|x: u64|
                    x != hospital implies (self.spec_is_authorized_hospital(x) <==> old(
                    self,
                ).spec_is_authorized_hospital(x)) by {
                    crate::index::lemma_push_contains(
                        old(self).authorized_hospitals@,
                        hospital,
                        x,
                    );
                }
                assert forall|i: int, j: int|
                    0 <= i < self.authorized_hospitals@.len() && 0 <= j
                        < self.authorized_hospitals@.len() && i != j implies self
                    .authorized_hospitals@[i] != self.authorized_hospitals@[j] by {
                    if i < old(self).authorized_hospitals@.len() && j < old(
                        self,
                    ).authorized_hospitals@.len() {
                    } else if i < old(self).authorized_hospitals@.len() {
                        assert(old(self).authorized_hospitals@.contains(
                            old(self).authorized_hospitals@[i],
                        ));
                    } else if j < old(self).authorized_hospitals@.len() {
                        assert(old(self).authorized_hospitals@.contains(
                            old(self).authorized_hospitals@[j],
                        ));
                    }
                }
            }
        }
        Ok(())
    }

    /// Takes a hospital off the allow-list; the admin stays authorized
    /// whether or not it ever stood there. Only the admin may call this,
    /// which the host has verified before the call runs.
    pub fn revoke_hospital(&mut self, hospital: u64) -> (r: Result<(), ContractError>)
        requires
            old(self).wf(),
        ensures
            final(self).wf(),
            !old(self).spec_is_initialized() ==> r == Err::<(), ContractError>(
                ContractError::NotInitialized,
            ) && *final(self) == *old(self),
            old(self).spec_is_initialized() ==> ({
                &&& r == Ok::<(), ContractError>(())
                &&& final(self).authorized_hospitals@ == old(
                    self,
                ).authorized_hospitals@.remove_value(hospital)
                &&& !final(self).authorized_hospitals@.contains(hospital)
                &&& (forall|x: u64|
                    x != hospital ==> (final(self).spec_is_authorized_hospital(x) <==> old(
                        self,
                    ).spec_is_authorized_hospital(x)))
                &&& final(self).admin == old(self).admin
                &&& final(self).request_counter == old(self).request_counter
                &&& final(self).requests == old(self).requests
                &&& final(self).hospital_index == old(self).hospital_index
                &&& final(self).blood_type_index == old(self).blood_type_index
                &&& final(self).status_index == old(self).status_index
                &&& final(self).urgency_index == old(self).urgency_index
            }),
    {
        if self.admin.is_none() {
            return Err(ContractError::NotInitialized);
        }
        remove_first(&mut self.authorized_hospitals, hospital);
        proof {
            lemma_remove_value_membership(old(self).authorized_hospitals@, hospital);
        }
        Ok(())
    }

    /// Whether a hospital may create requests: it is the admin or stands
    /// on the allow-list. The ledger must be initialized, for the
    /// allow-list has no reading before that.
    pub fn is_hospital_authorized(&self, hospital: u64) -> (r: bool)
        requires
            self.spec_is_initialized(),
        ensures
            r == self.spec_is_authorized_hospital(hospital),
    {
        match self.admin {
            Some(a) => a == hospital || contains_id(&self.authorized_hospitals, hospital),
            None => false,
        }
    }

    /// Creates a blood request. The full order of checks: the ledger must
    /// be initialized, the hospital authorized, the quantity within
    /// [100, 10000] ml, the deadline strictly in the future, the delivery
    /// address non-empty, and the deadline inside the urgency window read
    /// against the ledger clock `now`; only then is an id allocated, the
    /// entity stored and every index extended. A rejected call leaves the
    /// whole state untouched, the identity counter included. The host has
    /// authenticated `hospital_id` before the call runs.
    pub fn create_request(
        &mut self,
        hospital_id: u64,
        blood_type: BloodType,
        quantity_ml: u32,
        urgency: UrgencyLevel,
        required_by: u64,
        delivery_address: String,
        now: u64,
    ) -> (r: Result<u64, ContractError>)
        requires
            old(self).wf(),
            old(self).requests@.len() < usize::MAX,
        ensures
            final(self).wf(),
            !old(self).spec_is_initialized() ==> r == Err::<u64, ContractError>(
                ContractError::NotInitialized,
            ) && *final(self) == *old(self),
            old(self).spec_is_initialized() && !old(self).spec_is_authorized_hospital(hospital_id)
                ==> r == Err::<u64, ContractError>(ContractError::NotAuthorizedHospital) && *final(self) == *old(self),
            old(self).spec_is_initialized() && old(self).spec_is_authorized_hospital(hospital_id)
                && !valid_request_quantity(quantity_ml) ==> r == Err::<u64, ContractError>(
                ContractError::InvalidQuantity,
            ) && *final(self) == *old(self),
            old(self).spec_is_initialized() && old(self).spec_is_authorized_hospital(hospital_id)
                && valid_request_quantity(quantity_ml) && required_by <= now ==> r == Err::<
                u64,
                ContractError,
            >(ContractError::InvalidRequiredBy) && *final(self) == *old(self),
            old(self).spec_is_initialized() && old(self).spec_is_authorized_hospital(hospital_id)
                && valid_request_quantity(quantity_ml) && required_by > now
                && delivery_address@.len() == 0 ==> r == Err::<u64, ContractError>(
                ContractError::InvalidDeliveryAddress,
            ) && *final(self) == *old(self),
            old(self).spec_is_initialized() && old(self).spec_is_authorized_hospital(hospital_id)
                && valid_request_quantity(quantity_ml) && required_by > now
                && delivery_address@.len() > 0 && !valid_required_by(required_by, now, urgency)
                ==> r == Err::<u64, ContractError>(ContractError::InvalidRequiredBy) && *final(self) == *old(self),
            old(self).spec_is_initialized() && old(self).spec_is_authorized_hospital(hospital_id)
                && valid_request_quantity(quantity_ml) && delivery_address@.len() > 0
                && valid_required_by(required_by, now, urgency) ==> ({
                let id = (old(self).requests@.len() + 1) as u64;
                &&& r == Ok::<u64, ContractError>(id)
                &&& final(self).requests@.len() == old(self).requests@.len() + 1
                &&& (forall|i: int|
                    0 <= i < old(self).requests@.len() ==> final(self).requests@[i] == old(
                        self,
                    ).requests@[i])
                &&& request_matches(
                    final(self).requests@[id - 1],
                    id,
                    hospital_id,
                    blood_type,
                    quantity_ml,
                    urgency,
                    required_by,
                    delivery_address@,
                    now,
                )
                &&& final(self).admin == old(self).admin
                &&& final(self).authorized_hospitals == old(self).authorized_hospitals
                &&& final(self).request_counter == old(self).request_counter + 1
                &&& final(self).hospital_index.bucket(hospital_id) == old(
                    self,
                ).hospital_index.bucket(hospital_id).push(id)
                &&& final(self).blood_type_index.bucket(spec_blood_type_code(blood_type)) == old(
                    self,
                ).blood_type_index.bucket(spec_blood_type_code(blood_type)).push(id)
                &&& final(self).urgency_index.bucket(spec_urgency_code(urgency)) == old(
                    self,
                ).urgency_index.bucket(spec_urgency_code(urgency)).push(id)
                &&& final(self).status_index.bucket(
                    spec_request_status_code(RequestStatus::Pending),
                ) == old(self).status_index.bucket(
                    spec_request_status_code(RequestStatus::Pending),
                ).push(id)
                &&& (forall|k: u64|
                    k != hospital_id ==> #[trigger] final(self).hospital_index.bucket(k) == old(
                        self,
                    ).hospital_index.bucket(k))
                &&& (forall|k: u64|
                    k != spec_blood_type_code(blood_type) ==> #[trigger] final(self).blood_type_index.bucket(k) == old(self).blood_type_index.bucket(k))
                &&& (forall|k: u64|
                    k != spec_urgency_code(urgency) ==> #[trigger] final(self).urgency_index.bucket(k) == old(self).urgency_index.bucket(k))
                &&& (forall|k: u64|
                    k != spec_request_status_code(RequestStatus::Pending) ==> #[trigger] final(self).status_index.bucket(k) == old(self).status_index.bucket(k))
            }),
    {
        // 1. Hospital authentication is the host's duty and precedes this
        //    call.
        // 2. The ledger must be initialized.
        if self.admin.is_none() {
            return Err(ContractError::NotInitialized);
        }
        // 3. The hospital must be authorized.
        if !self.is_hospital_authorized(hospital_id) {
            return Err(ContractError::NotAuthorizedHospital);
        }
        // 4. Validate quantity, deadline and address; then the urgency
        //    window. Nothing has been written yet.
        match validate_request_creation(quantity_ml, required_by, &delivery_address, now) {
            Ok(()) => (),
            Err(e) => {
                return Err(e);
            },
        }
        match validate_urgency_time_window(required_by, urgency, now) {
            Ok(()) => (),
            Err(e) => {
                return Err(e);
            },
        }
        // 5. Allocate the identity: the final step before construction,
        //    so no failed validation ever consumes an id.
        let request_id: u64 = self.request_counter + 1;
        self.request_counter = request_id;
        // 6. Construct the entity.
        let request = BloodRequest {
            id: request_id,
            hospital_id,
            blood_type,
            quantity_ml,
            urgency,
            status: RequestStatus::Pending,
            created_at: now,
            required_by,
            fulfilled_at: None,
            assigned_units: Vec::new(),
            delivery_address,
            metadata: Vec::new(),
        };
        // 7. Check the entity invariant of the constructed record.
        match request.validate(now) {
            Ok(()) => (),
            Err(e) => {
                return Err(e);
            },
        }
        // 8. Extend the indexes and persist the record.
        self.hospital_index.append(request.hospital_id, request_id);
        self.blood_type_index.append(crate::types::blood_type_code(request.blood_type), request_id);
        self.urgency_index.append(crate::types::urgency_code(request.urgency), request_id);
        self.status_index.append(
            crate::types::request_status_code(RequestStatus::Pending),
            request_id,
        );
        self.requests.push(request);
        proof {
            let pre = *old(self);
            let post = *self;
            assert(post.requests@ =~= pre.requests@.push(
                post.requests@[pre.requests@.len() as int],
            ));
            lemma_index_after_create(
                pre.hospital_index,
                post.hospital_index,
                pre.requests@,
                post.requests@,
                req_hospital_key(),
                request_id,
            );
            lemma_index_after_create(
                pre.blood_type_index,
                post.blood_type_index,
                pre.requests@,
                post.requests@,
                req_type_key(),
                request_id,
            );
            lemma_index_after_create(
                pre.urgency_index,
                post.urgency_index,
                pre.requests@,
                post.requests@,
                req_urgency_key(),
                request_id,
            );
            lemma_index_after_create_distinct(
                pre.status_index,
                post.status_index,
                pre.requests@,
                post.requests@,
                req_status_key(),
                request_id,
            );
        }
        Ok(request_id)
    }

    /// Looks a request up by id; a missing id is reported as `NotFound`
    /// rather than as a raw absence.
    pub fn get_request(&self, request_id: u64) -> (r: Result<BloodRequest, ContractError>)
        ensures
            match self.spec_get_request(request_id) {
                Some(req) => r matches Ok(got) && request_eq(got, req),
                None => r == Err::<BloodRequest, ContractError>(ContractError::NotFound),
            },
    {
        if 1 <= request_id && request_id <= self.requests.len() as u64 {
            Ok(copy_request(&self.requests[(request_id - 1) as usize]))
        } else {
            Err(ContractError::NotFound)
        }
    }

    /// Approves a pending request. The order of checks: the ledger must
    /// be initialized, the request must exist, the structural transition
    /// to `Approved` must be legal, and the deadline must still lie in
    /// the future — a deadline already passed fails with `Expired`, a
    /// temporal fact distinct from the transition error. On success only
    /// the request's status and the status index change: the id moves
    /// from its old status bucket to the end of the `Approved` bucket.
    /// Only the admin may call this, which the host has verified before
    /// the call runs.
    pub fn approve_request(&mut self, request_id: u64, now: u64) -> (r: Result<
        (),
        ContractError,
    >)
        requires
            old(self).wf(),
        ensures
            final(self).wf(),
            !old(self).spec_is_initialized() ==> r == Err::<(), ContractError>(
                ContractError::NotInitialized,
            ) && *final(self) == *old(self),
            old(self).spec_is_initialized() && old(self).spec_get_request(request_id) is None ==> r
                == Err::<(), ContractError>(ContractError::NotFound) && *final(self) == *old(self),
            old(self).spec_is_initialized() && (old(self).spec_get_request(request_id) matches Some(
                req,
            ) && !spec_request_status_can_transition(req.status, RequestStatus::Approved)) ==> r
                == Err::<(), ContractError>(ContractError::InvalidStatusTransition) && *final(self)
                == *old(self),
            old(self).spec_is_initialized() && (old(self).spec_get_request(request_id) matches Some(
                req,
            ) && spec_request_status_can_transition(req.status, RequestStatus::Approved)
                && req.required_by <= now) ==> r == Err::<(), ContractError>(ContractError::Expired)
                && *final(self) == *old(self),
            old(self).spec_is_initialized() && (old(self).spec_get_request(request_id) matches Some(
                req,
            ) && spec_request_status_can_transition(req.status, RequestStatus::Approved)
                && req.required_by > now) ==> ({
                let prev = old(self).requests@[request_id - 1].status;
                &&& r == Ok::<(), ContractError>(())
                &&& final(self).requests@.len() == old(self).requests@.len()
                &&& (forall|i: int|
                    0 <= i < old(self).requests@.len() && i != request_id - 1 ==> final(self).requests@[i] == old(self).requests@[i])
                &&& request_eq_except_status(
                    final(self).requests@[request_id - 1],
                    old(self).requests@[request_id - 1],
                )
                &&& final(self).requests@[request_id - 1].status == RequestStatus::Approved
                &&& final(self).status_index.bucket(spec_request_status_code(prev)) == old(
                    self,
                ).status_index.bucket(spec_request_status_code(prev)).remove_value(request_id)
                &&& final(self).status_index.bucket(
                    spec_request_status_code(RequestStatus::Approved),
                ) == old(self).status_index.bucket(
                    spec_request_status_code(RequestStatus::Approved),
                ).push(request_id)
                &&& (forall|k: u64|
                    k != spec_request_status_code(prev) && k != spec_request_status_code(
                        RequestStatus::Approved,
                    ) ==> #[trigger] final(self).status_index.bucket(k) == old(
                        self,
                    ).status_index.bucket(k))
                &&& final(self).hospital_index == old(self).hospital_index
                &&& final(self).blood_type_index == old(self).blood_type_index
                &&& final(self).urgency_index == old(self).urgency_index
                &&& final(self).admin == old(self).admin
                &&& final(self).authorized_hospitals == old(self).authorized_hospitals
                &&& final(self).request_counter == old(self).request_counter
            }),
    {
        if self.admin.is_none() {
            return Err(ContractError::NotInitialized);
        }
        // Admin authentication is the host's duty and precedes this call.
        if !(1 <= request_id && request_id <= self.requests.len() as u64) {
            return Err(ContractError::NotFound);
        }
        let idx: usize = (request_id - 1) as usize;
        let current_status = self.requests[idx].status;
        if !current_status.can_transition_to(&RequestStatus::Approved) {
            return Err(ContractError::InvalidStatusTransition);
        }
        match validate_not_expired(self.requests[idx].required_by, now) {
            Ok(()) => (),
            Err(e) => {
                return Err(e);
            },
        }
        self.set_request_status(idx, RequestStatus::Approved);
        Ok(())
    }

    /// Cancels a request, on behalf of the hospital that owns it or of
    /// the admin. The order of checks: the ledger must be initialized,
    /// the request must exist, the caller must be the owning hospital or
    /// the admin, and the request must still be cancellable — only a
    /// pending or an approved one is. Cancellation reads no clock: a
    /// request past its deadline can still be cancelled. On success only
    /// the request's status and the status index change: the id moves
    /// from its old status bucket to the end of the `Cancelled` bucket.
    /// The host has authenticated `caller` before the call runs.
    pub fn cancel_request(&mut self, request_id: u64, caller: u64) -> (r: Result<
        (),
        ContractError,
    >)
        requires
            old(self).wf(),
        ensures
            final(self).wf(),
            !old(self).spec_is_initialized() ==> r == Err::<(), ContractError>(
                ContractError::NotInitialized,
            ) && *final(self) == *old(self),
            old(self).spec_is_initialized() && old(self).spec_get_request(request_id) is None ==> r
                == Err::<(), ContractError>(ContractError::NotFound) && *final(self) == *old(self),
            old(self).spec_is_initialized() && (old(self).spec_get_request(request_id) matches Some(
                req,
            ) && caller != req.hospital_id && old(self).admin != Some(caller)) ==> r == Err::<
                (),
                ContractError,
            >(ContractError::Unauthorized) && *final(self) == *old(self),
            old(self).spec_is_initialized() && (old(self).spec_get_request(request_id) matches Some(
                req,
            ) && (caller == req.hospital_id || old(self).admin == Some(caller))
                && !spec_request_status_can_cancel(req.status)) ==> r == Err::<(), ContractError>(
                ContractError::CannotCancelRequest,
            ) && *final(self) == *old(self),
            old(self).spec_is_initialized() && (old(self).spec_get_request(request_id) matches Some(
                req,
            ) && (caller == req.hospital_id || old(self).admin == Some(caller))
                && spec_request_status_can_cancel(req.status)) ==> ({
                let prev = old(self).requests@[request_id - 1].status;
                &&& r == Ok::<(), ContractError>(())
                &&& final(self).requests@.len() == old(self).requests@.len()
                &&& (forall|i: int|
                    0 <= i < old(self).requests@.len() && i != request_id - 1 ==> final(self).requests@[i] == old(self).requests@[i])
                &&& request_eq_except_status(
                    final(self).requests@[request_id - 1],
                    old(self).requests@[request_id - 1],
                )
                &&& final(self).requests@[request_id - 1].status == RequestStatus::Cancelled
                &&& final(self).status_index.bucket(spec_request_status_code(prev)) == old(
                    self,
                ).status_index.bucket(spec_request_status_code(prev)).remove_value(request_id)
                &&& final(self).status_index.bucket(
                    spec_request_status_code(RequestStatus::Cancelled),
                ) == old(self).status_index.bucket(
                    spec_request_status_code(RequestStatus::Cancelled),
                ).push(request_id)
                &&& (forall|k: u64|
                    k != spec_request_status_code(prev) && k != spec_request_status_code(
                        RequestStatus::Cancelled,
                    ) ==> #[trigger] final(self).status_index.bucket(k) == old(
                        self,
                    ).status_index.bucket(k))
                &&& final(self).hospital_index == old(self).hospital_index
                &&& final(self).blood_type_index == old(self).blood_type_index
                &&& final(self).urgency_index == old(self).urgency_index
                &&& final(self).admin == old(self).admin
                &&& final(self).authorized_hospitals == old(self).authorized_hospitals
                &&& final(self).request_counter == old(self).request_counter
            }),
    {
        // Caller authentication is the host's duty and precedes this call.
        if self.admin.is_none() {
            return Err(ContractError::NotInitialized);
        }
        if !(1 <= request_id && request_id <= self.requests.len() as u64) {
            return Err(ContractError::NotFound);
        }
        let idx: usize = (request_id - 1) as usize;
        let owner = self.requests[idx].hospital_id;
        let admin = get_admin(self);
        if caller != owner && caller != admin {
            return Err(ContractError::Unauthorized);
        }
        let current_status = self.requests[idx].status;
        if !current_status.can_cancel() {
            return Err(ContractError::CannotCancelRequest);
        }
        self.set_request_status(idx, RequestStatus::Cancelled);
        Ok(())
    }

    /// Rewrites the status of the stored request at position `idx` and
    /// moves its id from the bucket of its old status to the end of the
    /// bucket of the new one; nothing else changes. The status index is
    /// the one index dimension rewritten after creation.
    fn set_request_status(&mut self, idx: usize, to: RequestStatus)
        requires
            old(self).wf(),
            idx < old(self).requests@.len(),
            spec_request_status_code(old(self).requests@[idx as int].status)
                != spec_request_status_code(to),
        ensures
            final(self).wf(),
            final(self).requests@.len() == old(self).requests@.len(),
            forall|i: int|
                0 <= i < old(self).requests@.len() && i != idx ==> final(self).requests@[i] == old(
                    self,
                ).requests@[i],
            request_eq_except_status(
                final(self).requests@[idx as int],
                old(self).requests@[idx as int],
            ),
            final(self).requests@[idx as int].status == to,
            final(self).status_index.bucket(
                spec_request_status_code(old(self).requests@[idx as int].status),
            ) == old(self).status_index.bucket(
                spec_request_status_code(old(self).requests@[idx as int].status),
            ).remove_value((idx + 1) as u64),
            final(self).status_index.bucket(spec_request_status_code(to)) == old(
                self,
            ).status_index.bucket(spec_request_status_code(to)).push((idx + 1) as u64),
            forall|k: u64|
                k != spec_request_status_code(old(self).requests@[idx as int].status) && k
                    != spec_request_status_code(to) ==> #[trigger] final(self).status_index.bucket(
                    k,
                ) == old(self).status_index.bucket(k),
            final(self).hospital_index == old(self).hospital_index,
            final(self).blood_type_index == old(self).blood_type_index,
            final(self).urgency_index == old(self).urgency_index,
            final(self).admin == old(self).admin,
            final(self).authorized_hospitals == old(self).authorized_hospitals,
            final(self).request_counter == old(self).request_counter,
    {
        // Reading the length pins it to a machine word, so `idx + 1` fits.
        let _n: usize = self.requests.len();
        let request_id: u64 = (idx + 1) as u64;
        proof {
            assert(old(self).requests@[idx as int].id == idx + 1);
        }
        let from_code = crate::types::request_status_code(self.requests[idx].status);
        let mut req = self.requests.remove(idx);
        req.status = to;
        self.requests.insert(idx, req);
        self.status_index.remove_id(from_code, request_id);
        self.status_index.append(crate::types::request_status_code(to), request_id);
        proof {
            let pre = *old(self);
            let post = *self;
            assert(post.requests@ =~= pre.requests@.update(
                idx as int,
                post.requests@[idx as int],
            ));
            let hk = req_hospital_key();
            let tk = req_type_key();
            let uk = req_urgency_key();
            assert forall|i: int| 0 <= i < pre.requests@.len() implies hk(post.requests@[i]) == hk(
                pre.requests@[i],
            ) && tk(post.requests@[i]) == tk(pre.requests@[i]) && uk(post.requests@[i]) == uk(
                pre.requests@[i],
            ) by {}
            lemma_index_unchanged(post.hospital_index, pre.requests@, post.requests@, hk);
            lemma_index_unchanged(post.blood_type_index, pre.requests@, post.requests@, tk);
            lemma_index_unchanged(post.urgency_index, pre.requests@, post.requests@, uk);
            lemma_index_after_move(
                pre.status_index,
                post.status_index,
                pre.requests@,
                post.requests@,
                req_status_key(),
                request_id,
                spec_request_status_code(pre.requests@[idx as int].status),
                spec_request_status_code(to),
            );
        }
    }

    /// The ids of the requests a hospital owns, in creation order.
    pub fn get_hospital_requests(&self, hospital: u64) -> (r: Vec<u64>)
        ensures
            r@ == self.hospital_index.bucket(hospital),
    {
        self.hospital_index.get(hospital)
    }

    /// The ids of the requests currently in a status: in creation order
    /// until a bucket is rewritten by a transition, which removes the
    /// moved id and appends it to its new bucket.
    pub fn get_requests_by_status(&self, status: RequestStatus) -> (r: Vec<u64>)
        ensures
            r@ == self.status_index.bucket(spec_request_status_code(status)),
    {
        self.status_index.get(crate::types::request_status_code(status))
    }

    /// The ids of the requests asking for a blood type, in creation order.
    pub fn get_requests_by_blood_type(&self, blood_type: BloodType) -> (r: Vec<u64>)
        ensures
            r@ == self.blood_type_index.bucket(spec_blood_type_code(blood_type)),
    {
        self.blood_type_index.get(crate::types::blood_type_code(blood_type))
    }

    /// The ids of the requests declared with an urgency, in creation order.
    pub fn get_requests_by_urgency(&self, urgency: UrgencyLevel) -> (r: Vec<u64>)
        ensures
            r@ == self.urgency_index.bucket(spec_urgency_code(urgency)),
    {
        self.urgency_index.get(crate::types::urgency_code(urgency))
    }
}

/// Whether the ledger has been initialized.
pub fn is_initialized(s: &RequestContract) -> (r: bool)
    ensures
        r == s.spec_is_initialized(),
{
    s.admin.is_some()
}

/// Reads the admin slot; the ledger must be initialized.
pub fn get_admin(s: &RequestContract) -> (r: u64)
    requires
        s.spec_is_initialized(),
    ensures
        s.admin == Some(r),
{
    match s.admin {
        Some(a) => a,
        None => 0,  // unreachable: the ledger is initialized
    }
}

// ---------------------------------------------------------------------------
// Laws of the request ledger
// ---------------------------------------------------------------------------

/// Identity monotonicity: ids are handed out sequentially, so the request
/// stored at position `i` of the store carries id `i + 1`; together with
/// the creation contract — the Nth successful creation returns an id equal
/// to the store's new length, and a rejected one changes nothing — the Nth
/// successful creation yields id N, however many rejected attempts came
/// between.
pub proof fn lemma_request_identity_monotonic(s: RequestContract, i: int)
    requires
        s.wf(),
        0 <= i < s.requests@.len(),
    ensures
        s.requests@[i].id == i + 1,
{
}

/// Round trip: looking up the id a successful creation returned yields a
/// request equal in every field to what was stored for it.
pub proof fn lemma_create_round_trip(
    s: RequestContract,
    id: u64,
    hospital_id: u64,
    blood_type: BloodType,
    quantity_ml: u32,
    urgency: UrgencyLevel,
    required_by: u64,
    delivery_address: Seq<char>,
    now: u64,
)
    requires
        s.wf(),
        1 <= id <= s.requests@.len(),
        request_matches(
            s.requests@[id - 1],
            id,
            hospital_id,
            blood_type,
            quantity_ml,
            urgency,
            required_by,
            delivery_address,
            now,
        ),
    ensures
        s.spec_get_request(id) matches Some(req) && request_matches(
            req,
            id,
            hospital_id,
            blood_type,
            quantity_ml,
            urgency,
            required_by,
            delivery_address,
            now,
        ),
{
}

/// Index consistency for the creation-ordered dimensions: every bucket
/// files exactly the ids of the requests carrying its key, in creation
/// order.
pub proof fn lemma_request_indexes_consistent(s: RequestContract, k: u64, id: u64)
    requires
        s.wf(),
    ensures
        s.hospital_index.bucket(k).contains(id) <==> (1 <= id <= s.requests@.len()
            && s.requests@[id - 1].hospital_id == k),
        s.blood_type_index.bucket(k).contains(id) <==> (1 <= id <= s.requests@.len()
            && spec_blood_type_code(s.requests@[id - 1].blood_type) == k),
        s.urgency_index.bucket(k).contains(id) <==> (1 <= id <= s.requests@.len()
            && spec_urgency_code(s.requests@[id - 1].urgency) == k),
        strictly_increasing(s.hospital_index.bucket(k)),
        strictly_increasing(s.blood_type_index.bucket(k)),
        strictly_increasing(s.urgency_index.bucket(k)),
{
}

/// The status buckets partition the live ids: an id stands in the bucket
/// of exactly its record's current status, and in no bucket twice.
pub proof fn lemma_status_buckets_partition(s: RequestContract, id: u64, c: u64)
    requires
        s.wf(),
        1 <= id <= s.requests@.len(),
    ensures
        s.status_index.bucket(c).contains(id) <==> c == spec_request_status_code(
            s.requests@[id - 1].status,
        ),
        s.status_index.bucket(c).no_duplicates(),
{
}

} // verus!
