use vstd::prelude::*;

verus! {

// ---------------------------------------------------------------------------
// Domain constants
// ---------------------------------------------------------------------------

pub const SECONDS_PER_DAY: u64 = 86400;

/// Smallest volume a donated unit may hold, in millilitres.
pub const MIN_UNIT_QUANTITY_ML: u32 = 100;
/// Largest volume a donated unit may hold, in millilitres.
pub const MAX_UNIT_QUANTITY_ML: u32 = 600;
/// Smallest volume a request may ask for, in millilitres.
pub const MIN_REQUEST_QUANTITY_ML: u32 = 100;
/// Largest volume a request may ask for, in millilitres.
pub const MAX_REQUEST_QUANTITY_ML: u32 = 10000;

/// A freshly registered unit must keep at least one day of shelf life.
pub const MIN_SHELF_LIFE_SECONDS: u64 = 86400;
/// Whole blood keeps for at most 42 days.
pub const MAX_SHELF_LIFE_SECONDS: u64 = 42 * 86400;

/// No request may ask for delivery more than 30 days ahead.
pub const MAX_LEAD_TIME_SECONDS: u64 = 30 * 86400;
/// Critical requests need at least one hour of lead time.
pub const CRITICAL_MIN_LEAD_SECONDS: u64 = 3600;
/// Urgent requests need at least four hours of lead time.
pub const URGENT_MIN_LEAD_SECONDS: u64 = 4 * 3600;
/// Normal requests need at least one day of lead time.
pub const NORMAL_MIN_LEAD_SECONDS: u64 = 24 * 3600;

// ---------------------------------------------------------------------------
// Enumerations
// ---------------------------------------------------------------------------

/// The eight ABO/Rh blood type combinations.
#[derive(Clone, Copy, Debug, PartialEq, Eq, Structural)]
pub enum BloodType {
    APositive,
    ANegative,
    BPositive,
    BNegative,
    ABPositive,
    ABNegative,
    OPositive,
    ONegative,
}

/// Lifecycle status of a blood unit. Registration only ever produces
/// `Available`; the further transitions are reserved for later extensions.
#[derive(Clone, Copy, Debug, PartialEq, Eq, Structural)]
pub enum BloodStatus {
    Available,
    Reserved,
    Issued,
    Expired,
    Discarded,
}

/// Urgency of a blood request; each level carries its own minimum lead time.
#[derive(Clone, Copy, Debug, PartialEq, Eq, Structural)]
pub enum UrgencyLevel {
    Critical,
    Urgent,
    Normal,
}

/// Lifecycle status of a blood request.
#[derive(Clone, Copy, Debug, PartialEq, Eq, Structural)]
pub enum RequestStatus {
    Pending,
    Approved,
    InDelivery,
    Completed,
    Cancelled,
    Expired,
}

// ---------------------------------------------------------------------------
// Index key codes
//
// The secondary indexes are keyed by plain numbers; these functions give
// every enumeration value its bucket key.
// ---------------------------------------------------------------------------

pub open spec fn spec_blood_type_code(t: BloodType) -> u64 {
    match t {
        BloodType::APositive => 0,
        BloodType::ANegative => 1,
        BloodType::BPositive => 2,
        BloodType::BNegative => 3,
        BloodType::ABPositive => 4,
        BloodType::ABNegative => 5,
        BloodType::OPositive => 6,
        BloodType::ONegative => 7,
    }
}

#[verifier::when_used_as_spec(spec_blood_type_code)]
pub fn blood_type_code(t: BloodType) -> (c: u64)
    ensures
        c == spec_blood_type_code(t),
{
    match t {
        BloodType::APositive => 0,
        BloodType::ANegative => 1,
        BloodType::BPositive => 2,
        BloodType::BNegative => 3,
        BloodType::ABPositive => 4,
        BloodType::ABNegative => 5,
        BloodType::OPositive => 6,
        BloodType::ONegative => 7,
    }
}

pub open spec fn spec_blood_status_code(s: BloodStatus) -> u64 {
    match s {
        BloodStatus::Available => 0,
        BloodStatus::Reserved => 1,
        BloodStatus::Issued => 2,
        BloodStatus::Expired => 3,
        BloodStatus::Discarded => 4,
    }
}

#[verifier::when_used_as_spec(spec_blood_status_code)]
pub fn blood_status_code(s: BloodStatus) -> (c: u64)
    ensures
        c == spec_blood_status_code(s),
{
    match s {
        BloodStatus::Available => 0,
        BloodStatus::Reserved => 1,
        BloodStatus::Issued => 2,
        BloodStatus::Expired => 3,
        BloodStatus::Discarded => 4,
    }
}

pub open spec fn spec_request_status_code(s: RequestStatus) -> u64 {
    match s {
        RequestStatus::Pending => 0,
        RequestStatus::Approved => 1,
        RequestStatus::InDelivery => 2,
        RequestStatus::Completed => 3,
        RequestStatus::Cancelled => 4,
        RequestStatus::Expired => 5,
    }
}

#[verifier::when_used_as_spec(spec_request_status_code)]
pub fn request_status_code(s: RequestStatus) -> (c: u64)
    ensures
        c == spec_request_status_code(s),
{
    match s {
        RequestStatus::Pending => 0,
        RequestStatus::Approved => 1,
        RequestStatus::InDelivery => 2,
        RequestStatus::Completed => 3,
        RequestStatus::Cancelled => 4,
        RequestStatus::Expired => 5,
    }
}

pub open spec fn spec_urgency_code(u: UrgencyLevel) -> u64 {
    match u {
        UrgencyLevel::Critical => 0,
        UrgencyLevel::Urgent => 1,
        UrgencyLevel::Normal => 2,
    }
}

#[verifier::when_used_as_spec(spec_urgency_code)]
pub fn urgency_code(u: UrgencyLevel) -> (c: u64)
    ensures
        c == spec_urgency_code(u),
{
    match u {
        UrgencyLevel::Critical => 0,
        UrgencyLevel::Urgent => 1,
        UrgencyLevel::Normal => 2,
    }
}

// ---------------------------------------------------------------------------
// Status state machines
// ---------------------------------------------------------------------------

/// Legal status transitions of a blood unit: a unit on the shelf can be
/// reserved, expire or be discarded; a reserved unit can be issued, expire
/// or be discarded. Issued, expired and discarded are terminal.
pub open spec fn spec_blood_status_can_transition(from: BloodStatus, to: BloodStatus) -> bool {
    match from {
        BloodStatus::Available => to == BloodStatus::Reserved || to == BloodStatus::Expired
            || to == BloodStatus::Discarded,
        BloodStatus::Reserved => to == BloodStatus::Issued || to == BloodStatus::Expired
            || to == BloodStatus::Discarded,
        BloodStatus::Issued => false,
        BloodStatus::Expired => false,
        BloodStatus::Discarded => false,
    }
}

pub open spec fn spec_blood_status_is_terminal(s: BloodStatus) -> bool {
    s == BloodStatus::Issued || s == BloodStatus::Expired || s == BloodStatus::Discarded
}

impl BloodStatus {
    pub fn can_transition_to(&self, to: &BloodStatus) -> (r: bool)
        ensures
            r == spec_blood_status_can_transition(*self, *to),
    {
        match self {
            BloodStatus::Available => matches!(to, BloodStatus::Reserved | BloodStatus::Expired
                | BloodStatus::Discarded),
            BloodStatus::Reserved => matches!(to, BloodStatus::Issued | BloodStatus::Expired
                | BloodStatus::Discarded),
            BloodStatus::Issued => false,
            BloodStatus::Expired => false,
            BloodStatus::Discarded => false,
        }
    }
}

/// Legal status transitions of a blood request:
/// Pending -> Approved | Cancelled | Expired,
/// Approved -> InDelivery | Cancelled | Expired,
/// InDelivery -> Completed; Completed, Cancelled and Expired are terminal.
pub open spec fn spec_request_status_can_transition(from: RequestStatus, to: RequestStatus) -> bool {
    match from {
        RequestStatus::Pending => to == RequestStatus::Approved || to == RequestStatus::Cancelled
            || to == RequestStatus::Expired,
        RequestStatus::Approved => to == RequestStatus::InDelivery
            || to == RequestStatus::Cancelled || to == RequestStatus::Expired,
        RequestStatus::InDelivery => to == RequestStatus::Completed,
        RequestStatus::Completed => false,
        RequestStatus::Cancelled => false,
        RequestStatus::Expired => false,
    }
}

/// Cancellation is narrower than "may transition to Cancelled": only a
/// pending or an approved request can be cancelled.
pub open spec fn spec_request_status_can_cancel(s: RequestStatus) -> bool {
    s == RequestStatus::Pending || s == RequestStatus::Approved
}

pub open spec fn spec_request_status_is_terminal(s: RequestStatus) -> bool {
    s == RequestStatus::Completed || s == RequestStatus::Cancelled || s == RequestStatus::Expired
}

impl RequestStatus {
    pub fn can_transition_to(&self, to: &RequestStatus) -> (r: bool)
        ensures
            r == spec_request_status_can_transition(*self, *to),
    {
        match self {
            RequestStatus::Pending => matches!(to, RequestStatus::Approved
                | RequestStatus::Cancelled | RequestStatus::Expired),
            RequestStatus::Approved => matches!(to, RequestStatus::InDelivery
                | RequestStatus::Cancelled | RequestStatus::Expired),
            RequestStatus::InDelivery => matches!(to, RequestStatus::Completed),
            RequestStatus::Completed => false,
            RequestStatus::Cancelled => false,
            RequestStatus::Expired => false,
        }
    }

    pub fn can_cancel(&self) -> (r: bool)
        ensures
            r == spec_request_status_can_cancel(*self),
    {
        matches!(self, RequestStatus::Pending | RequestStatus::Approved)
    }
}

/// From a terminal request status no transition at all is legal.
pub proof fn lemma_terminal_status_has_no_transitions(from: RequestStatus, to: RequestStatus)
    requires
        spec_request_status_is_terminal(from),
    ensures
        !spec_request_status_can_transition(from, to),
{
}

/// Every status that permits cancellation also permits the structural
/// transition to `Cancelled`; the converse does not hold of any further
/// status, so cancellation is the narrower predicate.
pub proof fn lemma_can_cancel_implies_cancel_transition(s: RequestStatus)
    requires
        spec_request_status_can_cancel(s),
    ensures
        spec_request_status_can_transition(s, RequestStatus::Cancelled),
{
}

/// From a terminal blood-unit status no transition is legal either.
pub proof fn lemma_terminal_blood_status_has_no_transitions(from: BloodStatus, to: BloodStatus)
    requires
        spec_blood_status_is_terminal(from),
    ensures
        !spec_blood_status_can_transition(from, to),
{
}

// ---------------------------------------------------------------------------
// Entities
// ---------------------------------------------------------------------------

/// A physical donated blood unit. Every field but `status` and `metadata`
/// is write-once: assigned at registration and immutable afterwards.
pub struct BloodUnit {
    pub id: u64,
    pub blood_type: BloodType,
    pub quantity_ml: u32,
    pub bank_id: u64,
    /// `None` marks an anonymous donation.
    pub donor_id: Option<u64>,
    pub donation_timestamp: u64,
    pub expiration_timestamp: u64,
    pub status: BloodStatus,
    /// Open key/value annotations; carried verbatim, never validated, and
    /// excluded from the entity invariant.
    pub metadata: Vec<(String, String)>,
}

/// A hospital's request for blood. Every field but `status`, `fulfilled_at`,
/// `assigned_units` and `metadata` is write-once.
pub struct BloodRequest {
    pub id: u64,
    pub hospital_id: u64,
    pub blood_type: BloodType,
    pub quantity_ml: u32,
    pub urgency: UrgencyLevel,
    pub status: RequestStatus,
    pub created_at: u64,
    pub required_by: u64,
    /// Set when the request is completed; never set in the current scope.
    pub fulfilled_at: Option<u64>,
    /// Unit ids assigned by a later allocation step; empty in the current scope.
    pub assigned_units: Vec<u64>,
    pub delivery_address: String,
    /// Open key/value annotations; carried verbatim, never validated, and
    /// excluded from the entity invariant.
    pub metadata: Vec<(String, String)>,
}

// ---------------------------------------------------------------------------
// Validity predicates
// ---------------------------------------------------------------------------

pub open spec fn valid_unit_quantity(q: u32) -> bool {
    MIN_UNIT_QUANTITY_ML <= q <= MAX_UNIT_QUANTITY_ML
}

/// A unit registered at `now` must keep between one day and 42 days of
/// shelf life (remaining life measured from `now`); this single rule also
/// forces the expiration to lie strictly in the future.
pub open spec fn valid_unit_expiration(expiration: u64, now: u64) -> bool {
    now + MIN_SHELF_LIFE_SECONDS <= expiration <= now + MAX_SHELF_LIFE_SECONDS
}

/// The invariant every stored blood unit satisfies: its quantity is in
/// range and its shelf-life window held at its donation time.
pub open spec fn valid_unit_record(u: BloodUnit) -> bool {
    &&& valid_unit_quantity(u.quantity_ml)
    &&& valid_unit_expiration(u.expiration_timestamp, u.donation_timestamp)
}

pub open spec fn valid_request_quantity(q: u32) -> bool {
    MIN_REQUEST_QUANTITY_ML <= q <= MAX_REQUEST_QUANTITY_ML
}

pub open spec fn spec_min_lead_seconds(u: UrgencyLevel) -> u64 {
    match u {
        UrgencyLevel::Critical => CRITICAL_MIN_LEAD_SECONDS,
        UrgencyLevel::Urgent => URGENT_MIN_LEAD_SECONDS,
        UrgencyLevel::Normal => NORMAL_MIN_LEAD_SECONDS,
    }
}

#[verifier::when_used_as_spec(spec_min_lead_seconds)]
pub fn min_lead_seconds(u: UrgencyLevel) -> (s: u64)
    ensures
        s == spec_min_lead_seconds(u),
{
    match u {
        UrgencyLevel::Critical => CRITICAL_MIN_LEAD_SECONDS,
        UrgencyLevel::Urgent => URGENT_MIN_LEAD_SECONDS,
        UrgencyLevel::Normal => NORMAL_MIN_LEAD_SECONDS,
    }
}

/// The deadline of a request created at `now` must leave at least the
/// urgency's minimum lead time and at most 30 days; this also forces the
/// deadline to lie strictly in the future.
pub open spec fn valid_required_by(required_by: u64, now: u64, urgency: UrgencyLevel) -> bool {
    now + spec_min_lead_seconds(urgency) <= required_by <= now + MAX_LEAD_TIME_SECONDS
}

/// The invariant every stored blood request satisfies: its quantity is in
/// range, its deadline respected the urgency window at creation time, and
/// its delivery address is non-empty.
pub open spec fn valid_request_record(r: BloodRequest) -> bool {
    &&& valid_request_quantity(r.quantity_ml)
    &&& valid_required_by(r.required_by, r.created_at, r.urgency)
    &&& r.delivery_address@.len() > 0
}

// ---------------------------------------------------------------------------
// Field-wise entity equality and copying
// ---------------------------------------------------------------------------

/// Two blood units agree in every field.
pub open spec fn unit_eq(a: BloodUnit, b: BloodUnit) -> bool {
    &&& a.id == b.id
    &&& a.blood_type == b.blood_type
    &&& a.quantity_ml == b.quantity_ml
    &&& a.bank_id == b.bank_id
    &&& a.donor_id == b.donor_id
    &&& a.donation_timestamp == b.donation_timestamp
    &&& a.expiration_timestamp == b.expiration_timestamp
    &&& a.status == b.status
    &&& a.metadata@ == b.metadata@
}

/// Two blood requests agree in every field.
pub open spec fn request_eq(a: BloodRequest, b: BloodRequest) -> bool {
    &&& a.id == b.id
    &&& a.hospital_id == b.hospital_id
    &&& a.blood_type == b.blood_type
    &&& a.quantity_ml == b.quantity_ml
    &&& a.urgency == b.urgency
    &&& a.status == b.status
    &&& a.created_at == b.created_at
    &&& a.required_by == b.required_by
    &&& a.fulfilled_at == b.fulfilled_at
    &&& a.assigned_units@ == b.assigned_units@
    &&& a.delivery_address@ == b.delivery_address@
    &&& a.metadata@ == b.metadata@
}

/// What register stores: the unit holds exactly the supplied fields, its
/// donation time is the clock reading of the operation, its status is the
/// initial `Available`, and its metadata starts empty.
pub open spec fn unit_matches(
    u: BloodUnit,
    id: u64,
    blood_type: BloodType,
    quantity_ml: u32,
    bank_id: u64,
    donor_id: Option<u64>,
    expiration_timestamp: u64,
    now: u64,
) -> bool {
    &&& u.id == id
    &&& u.blood_type == blood_type
    &&& u.quantity_ml == quantity_ml
    &&& u.bank_id == bank_id
    &&& u.donor_id == donor_id
    &&& u.donation_timestamp == now
    &&& u.expiration_timestamp == expiration_timestamp
    &&& u.status == BloodStatus::Available
    &&& u.metadata@ == Seq::<(String, String)>::empty()
}

/// What create stores: the request holds exactly the supplied fields, its
/// creation time is the clock reading of the operation, its status is the
/// initial `Pending`, and its open-ended parts start empty.
pub open spec fn request_matches(
    r: BloodRequest,
    id: u64,
    hospital_id: u64,
    blood_type: BloodType,
    quantity_ml: u32,
    urgency: UrgencyLevel,
    required_by: u64,
    delivery_address: Seq<char>,
    now: u64,
) -> bool {
    &&& r.id == id
    &&& r.hospital_id == hospital_id
    &&& r.blood_type == blood_type
    &&& r.quantity_ml == quantity_ml
    &&& r.urgency == urgency
    &&& r.status == RequestStatus::Pending
    &&& r.created_at == now
    &&& r.required_by == required_by
    &&& r.fulfilled_at is None
    &&& r.assigned_units@ == Seq::<u64>::empty()
    &&& r.delivery_address@ == delivery_address
    &&& r.metadata@ == Seq::<(String, String)>::empty()
}

/// Two blood requests agree in every field but possibly the status: what a
/// status transition leaves untouched.
pub open spec fn request_eq_except_status(a: BloodRequest, b: BloodRequest) -> bool {
    &&& a.id == b.id
    &&& a.hospital_id == b.hospital_id
    &&& a.blood_type == b.blood_type
    &&& a.quantity_ml == b.quantity_ml
    &&& a.urgency == b.urgency
    &&& a.created_at == b.created_at
    &&& a.required_by == b.required_by
    &&& a.fulfilled_at == b.fulfilled_at
    &&& a.assigned_units@ == b.assigned_units@
    &&& a.delivery_address@ == b.delivery_address@
    &&& a.metadata@ == b.metadata@
}

/// Copies an id list element by element.
pub fn copy_ids(v: &Vec<u64>) -> (r: Vec<u64>)
    ensures
        r@ == v@,
{
    let mut r: Vec<u64> = Vec::new();
    let mut i: usize = 0;
    while i < v.len()
        invariant
            i <= v.len(),
            r@ == v@.subrange(0, i as int),
        decreases v.len() - i,
    {
        r.push(v[i]);
        i = i + 1;
        proof {
            assert(r@ =~= v@.subrange(0, i as int));
        }
    }
    proof {
        assert(r@ =~= v@);
    }
    r
}

/// Copies a metadata mapping entry by entry.
pub fn copy_metadata(m: &Vec<(String, String)>) -> (r: Vec<(String, String)>)
    ensures
        r@ == m@,
{
    let mut r: Vec<(String, String)> = Vec::new();
    let mut i: usize = 0;
    while i < m.len()
        invariant
            i <= m.len(),
            r@ == m@.subrange(0, i as int),
        decreases m.len() - i,
    {
        let entry = (m[i].0.clone(), m[i].1.clone());
        r.push(entry);
        i = i + 1;
        proof {
            assert(r@ =~= m@.subrange(0, i as int));
        }
    }
    proof {
        assert(r@ =~= m@);
    }
    r
}

/// Rebuilds a blood unit value equal in every field to the original.
pub fn copy_unit(u: &BloodUnit) -> (r: BloodUnit)
    ensures
        unit_eq(r, *u),
{
    BloodUnit {
        id: u.id,
        blood_type: u.blood_type,
        quantity_ml: u.quantity_ml,
        bank_id: u.bank_id,
        donor_id: u.donor_id,
        donation_timestamp: u.donation_timestamp,
        expiration_timestamp: u.expiration_timestamp,
        status: u.status,
        metadata: copy_metadata(&u.metadata),
    }
}

/// Rebuilds a blood request value equal in every field to the original.
pub fn copy_request(r: &BloodRequest) -> (out: BloodRequest)
    ensures
        request_eq(out, *r),
{
    BloodRequest {
        id: r.id,
        hospital_id: r.hospital_id,
        blood_type: r.blood_type,
        quantity_ml: r.quantity_ml,
        urgency: r.urgency,
        status: r.status,
        created_at: r.created_at,
        required_by: r.required_by,
        fulfilled_at: r.fulfilled_at,
        assigned_units: copy_ids(&r.assigned_units),
        delivery_address: r.delivery_address.clone(),
        metadata: copy_metadata(&r.metadata),
    }
}

} // verus!
