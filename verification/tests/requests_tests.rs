use lifebank::error::ContractError;
use lifebank::requests::{self, RequestContract};
use lifebank::types::{BloodType, RequestStatus, UrgencyLevel};

const ADMIN: u64 = 1;
const HOSPITAL: u64 = 10;
const HOSPITAL2: u64 = 11;
const OTHER: u64 = 99;

fn create_test_contract() -> (RequestContract, u64) {
    let mut led = RequestContract::new();
    led.initialize(ADMIN).unwrap();
    (led, ADMIN)
}

fn setup_authorized_hospital(led: &mut RequestContract, hospital: u64) -> u64 {
    led.authorize_hospital(hospital).unwrap();
    hospital
}

fn address() -> String {
    String::from("123 Hospital Street")
}

#[test]
fn test_test_initialize_success() {
    let (led, admin) = create_test_contract();
    let stored_admin = requests::get_admin(&led);
    assert_eq!(stored_admin, admin);
    assert!(requests::is_initialized(&led));
}

#[test]
fn test_test_initialize_already_initialized() {
    let (mut led, admin) = create_test_contract();
    assert_eq!(led.initialize(admin), Err(ContractError::AlreadyInitialized));
}

#[test]
fn test_authorize_hospital_success() {
    let (mut led, _admin) = create_test_contract();

    assert!(!led.is_hospital_authorized(HOSPITAL));
    led.authorize_hospital(HOSPITAL).unwrap();
    assert!(led.is_hospital_authorized(HOSPITAL));
}

#[test]
fn test_revoke_hospital_success() {
    let (mut led, _admin) = create_test_contract();

    led.authorize_hospital(HOSPITAL).unwrap();
    assert!(led.is_hospital_authorized(HOSPITAL));

    led.revoke_hospital(HOSPITAL).unwrap();
    assert!(!led.is_hospital_authorized(HOSPITAL));
}

#[test]
fn test_admin_is_always_authorized() {
    let (led, admin) = create_test_contract();
    assert!(led.is_hospital_authorized(admin));
}

#[test]
fn test_authorization_before_initialization_fails() {
    let mut led = RequestContract::new();
    assert_eq!(led.authorize_hospital(HOSPITAL), Err(ContractError::NotInitialized));
    assert_eq!(led.revoke_hospital(HOSPITAL), Err(ContractError::NotInitialized));
}

#[test]
fn test_create_request_success() {
    let (mut led, _admin) = create_test_contract();
    let hospital = setup_authorized_hospital(&mut led, HOSPITAL);

    let current_time = 1000000u64;
    let blood_type = BloodType::APositive;
    let quantity_ml = 900u32;
    let urgency = UrgencyLevel::Normal;
    let required_by = current_time + 7 * 86400;
    let delivery_address = String::from("123 Hospital Street, City");

    let request_id = led
        .create_request(
            hospital,
            blood_type,
            quantity_ml,
            urgency,
            required_by,
            delivery_address.clone(),
            current_time,
        )
        .unwrap();
    assert_eq!(request_id, 1);

    let stored_request = led.get_request(request_id).unwrap();
    assert_eq!(stored_request.id, 1);
    assert_eq!(stored_request.hospital_id, hospital);
    assert_eq!(stored_request.blood_type, blood_type);
    assert_eq!(stored_request.quantity_ml, quantity_ml);
    assert_eq!(stored_request.urgency, urgency);
    assert_eq!(stored_request.status, RequestStatus::Pending);
    assert_eq!(stored_request.created_at, current_time);
    assert_eq!(stored_request.required_by, required_by);
    assert_eq!(stored_request.fulfilled_at, None);
    assert_eq!(stored_request.assigned_units.len(), 0);
    assert_eq!(stored_request.delivery_address, delivery_address);
}

#[test]
fn test_create_request_increments_id() {
    let (mut led, _admin) = create_test_contract();
    let hospital = setup_authorized_hospital(&mut led, HOSPITAL);

    let current_time = 1000000u64;
    let required_by = current_time + 7 * 86400;

    let id1 = led
        .create_request(
            hospital,
            BloodType::APositive,
            450,
            UrgencyLevel::Normal,
            required_by,
            address(),
            current_time,
        )
        .unwrap();
    assert_eq!(id1, 1);

    let id2 = led
        .create_request(
            hospital,
            BloodType::BPositive,
            450,
            UrgencyLevel::Urgent,
            required_by,
            address(),
            current_time,
        )
        .unwrap();
    assert_eq!(id2, 2);

    let id3 = led
        .create_request(
            hospital,
            BloodType::ONegative,
            450,
            UrgencyLevel::Critical,
            current_time + 2 * 3600,
            address(),
            current_time,
        )
        .unwrap();
    assert_eq!(id3, 3);
}

#[test]
fn test_create_request_all_blood_types() {
    let (mut led, _admin) = create_test_contract();
    let hospital = setup_authorized_hospital(&mut led, HOSPITAL);

    let current_time = 1000000u64;
    let required_by = current_time + 7 * 86400;

    let blood_types = [
        BloodType::APositive,
        BloodType::ANegative,
        BloodType::BPositive,
        BloodType::BNegative,
        BloodType::ABPositive,
        BloodType::ABNegative,
        BloodType::OPositive,
        BloodType::ONegative,
    ];

    for (i, blood_type) in blood_types.iter().enumerate() {
        let id = led
            .create_request(
                hospital,
                *blood_type,
                450,
                UrgencyLevel::Normal,
                required_by,
                address(),
                current_time,
            )
            .unwrap();
        assert_eq!(id, (i + 1) as u64);

        let request = led.get_request(id).unwrap();
        assert_eq!(request.blood_type, *blood_type);
    }
}

#[test]
fn test_create_request_all_urgency_levels() {
    let (mut led, _admin) = create_test_contract();
    let hospital = setup_authorized_hospital(&mut led, HOSPITAL);

    let current_time = 1000000u64;

    // Critical needs at least one hour of lead time.
    let id1 = led
        .create_request(
            hospital,
            BloodType::APositive,
            450,
            UrgencyLevel::Critical,
            current_time + 2 * 3600,
            address(),
            current_time,
        )
        .unwrap();
    let req1 = led.get_request(id1).unwrap();
    assert_eq!(req1.urgency, UrgencyLevel::Critical);

    // Urgent needs at least four hours.
    let id2 = led
        .create_request(
            hospital,
            BloodType::BPositive,
            450,
            UrgencyLevel::Urgent,
            current_time + 6 * 3600,
            address(),
            current_time,
        )
        .unwrap();
    let req2 = led.get_request(id2).unwrap();
    assert_eq!(req2.urgency, UrgencyLevel::Urgent);

    // Normal needs at least a day.
    let id3 = led
        .create_request(
            hospital,
            BloodType::ONegative,
            450,
            UrgencyLevel::Normal,
            current_time + 48 * 3600,
            address(),
            current_time,
        )
        .unwrap();
    let req3 = led.get_request(id3).unwrap();
    assert_eq!(req3.urgency, UrgencyLevel::Normal);
}

#[test]
fn test_create_request_unauthorized_hospital() {
    let (mut led, _admin) = create_test_contract();
    let current_time = 1000000u64;
    let r = led.create_request(
        OTHER,
        BloodType::APositive,
        450,
        UrgencyLevel::Normal,
        current_time + 7 * 86400,
        address(),
        current_time,
    );
    assert_eq!(r, Err(ContractError::NotAuthorizedHospital));
}

#[test]
fn test_create_request_quantity_too_low() {
    let (mut led, _admin) = create_test_contract();
    let hospital = setup_authorized_hospital(&mut led, HOSPITAL);
    let current_time = 1000000u64;
    let r = led.create_request(
        hospital,
        BloodType::APositive,
        50,
        UrgencyLevel::Normal,
        current_time + 7 * 86400,
        address(),
        current_time,
    );
    assert_eq!(r, Err(ContractError::InvalidQuantity));
}

#[test]
fn test_create_request_quantity_too_high() {
    let (mut led, _admin) = create_test_contract();
    let hospital = setup_authorized_hospital(&mut led, HOSPITAL);
    let current_time = 1000000u64;
    let r = led.create_request(
        hospital,
        BloodType::APositive,
        20000,
        UrgencyLevel::Normal,
        current_time + 7 * 86400,
        address(),
        current_time,
    );
    assert_eq!(r, Err(ContractError::InvalidQuantity));
}

#[test]
fn test_create_request_required_by_too_soon() {
    let (mut led, _admin) = create_test_contract();
    let hospital = setup_authorized_hospital(&mut led, HOSPITAL);
    let current_time = 1000000u64;
    // Thirty minutes is below every minimum lead time.
    let r = led.create_request(
        hospital,
        BloodType::APositive,
        450,
        UrgencyLevel::Normal,
        current_time + 1800,
        address(),
        current_time,
    );
    assert_eq!(r, Err(ContractError::InvalidRequiredBy));
}

#[test]
fn test_create_request_required_by_too_far() {
    let (mut led, _admin) = create_test_contract();
    let hospital = setup_authorized_hospital(&mut led, HOSPITAL);
    let current_time = 1000000u64;
    // Sixty days is beyond the thirty-day maximum.
    let r = led.create_request(
        hospital,
        BloodType::APositive,
        450,
        UrgencyLevel::Normal,
        current_time + 60 * 86400,
        address(),
        current_time,
    );
    assert_eq!(r, Err(ContractError::InvalidRequiredBy));
}

#[test]
fn test_create_request_empty_delivery_address() {
    let (mut led, _admin) = create_test_contract();
    let hospital = setup_authorized_hospital(&mut led, HOSPITAL);
    let current_time = 1000000u64;
    let r = led.create_request(
        hospital,
        BloodType::APositive,
        450,
        UrgencyLevel::Normal,
        current_time + 7 * 86400,
        String::new(),
        current_time,
    );
    assert_eq!(r, Err(ContractError::InvalidDeliveryAddress));
}

#[test]
fn test_create_request_edge_case_quantities() {
    let (mut led, _admin) = create_test_contract();
    let hospital = setup_authorized_hospital(&mut led, HOSPITAL);
    let current_time = 1000000u64;
    let required_by = current_time + 7 * 86400;

    let id1 = led
        .create_request(
            hospital,
            BloodType::APositive,
            100,
            UrgencyLevel::Normal,
            required_by,
            address(),
            current_time,
        )
        .unwrap();
    let req1 = led.get_request(id1).unwrap();
    assert_eq!(req1.quantity_ml, 100);

    let id2 = led
        .create_request(
            hospital,
            BloodType::BPositive,
            10000,
            UrgencyLevel::Normal,
            required_by,
            address(),
            current_time,
        )
        .unwrap();
    let req2 = led.get_request(id2).unwrap();
    assert_eq!(req2.quantity_ml, 10000);
}

#[test]
fn test_approve_request_success() {
    let (mut led, _admin) = create_test_contract();
    let hospital = setup_authorized_hospital(&mut led, HOSPITAL);
    let current_time = 1000000u64;

    let request_id = led
        .create_request(
            hospital,
            BloodType::APositive,
            450,
            UrgencyLevel::Normal,
            current_time + 7 * 86400,
            address(),
            current_time,
        )
        .unwrap();

    let request = led.get_request(request_id).unwrap();
    assert_eq!(request.status, RequestStatus::Pending);

    led.approve_request(request_id, current_time).unwrap();

    let updated_request = led.get_request(request_id).unwrap();
    assert_eq!(updated_request.status, RequestStatus::Approved);
}

#[test]
fn test_approve_request_not_found() {
    let (mut led, _admin) = create_test_contract();
    assert_eq!(led.approve_request(999, 1000000), Err(ContractError::NotFound));
}

#[test]
fn test_approve_request_already_approved() {
    let (mut led, _admin) = create_test_contract();
    let hospital = setup_authorized_hospital(&mut led, HOSPITAL);
    let current_time = 1000000u64;

    let request_id = led
        .create_request(
            hospital,
            BloodType::APositive,
            450,
            UrgencyLevel::Normal,
            current_time + 7 * 86400,
            address(),
            current_time,
        )
        .unwrap();

    led.approve_request(request_id, current_time).unwrap();
    assert_eq!(
        led.approve_request(request_id, current_time),
        Err(ContractError::InvalidStatusTransition)
    );
}

#[test]
fn test_approve_request_expired() {
    let (mut led, _admin) = create_test_contract();
    let hospital = setup_authorized_hospital(&mut led, HOSPITAL);
    let current_time = 1000000u64;
    let required_by = current_time + 2 * 86400;

    let request_id = led
        .create_request(
            hospital,
            BloodType::APositive,
            450,
            UrgencyLevel::Normal,
            required_by,
            address(),
            current_time,
        )
        .unwrap();

    // Fast forward past required_by.
    assert_eq!(
        led.approve_request(request_id, required_by + 1),
        Err(ContractError::Expired)
    );
}

#[test]
fn test_cancel_request_by_hospital() {
    let (mut led, _admin) = create_test_contract();
    let hospital = setup_authorized_hospital(&mut led, HOSPITAL);
    let current_time = 1000000u64;

    let request_id = led
        .create_request(
            hospital,
            BloodType::APositive,
            450,
            UrgencyLevel::Normal,
            current_time + 7 * 86400,
            address(),
            current_time,
        )
        .unwrap();

    led.cancel_request(request_id, hospital).unwrap();

    let request = led.get_request(request_id).unwrap();
    assert_eq!(request.status, RequestStatus::Cancelled);
}

#[test]
fn test_cancel_request_by_admin() {
    let (mut led, admin) = create_test_contract();
    let hospital = setup_authorized_hospital(&mut led, HOSPITAL);
    let current_time = 1000000u64;

    let request_id = led
        .create_request(
            hospital,
            BloodType::APositive,
            450,
            UrgencyLevel::Normal,
            current_time + 7 * 86400,
            address(),
            current_time,
        )
        .unwrap();

    led.cancel_request(request_id, admin).unwrap();

    let request = led.get_request(request_id).unwrap();
    assert_eq!(request.status, RequestStatus::Cancelled);
}

#[test]
fn test_cancel_request_unauthorized() {
    let (mut led, _admin) = create_test_contract();
    let hospital = setup_authorized_hospital(&mut led, HOSPITAL);
    let current_time = 1000000u64;

    let request_id = led
        .create_request(
            hospital,
            BloodType::APositive,
            450,
            UrgencyLevel::Normal,
            current_time + 7 * 86400,
            address(),
            current_time,
        )
        .unwrap();

    // A caller who is neither the owning hospital nor the admin may not
    // cancel it.
    assert_eq!(
        led.cancel_request(request_id, OTHER),
        Err(ContractError::Unauthorized)
    );
}

#[test]
fn test_cancel_request_already_cancelled() {
    let (mut led, _admin) = create_test_contract();
    let hospital = setup_authorized_hospital(&mut led, HOSPITAL);
    let current_time = 1000000u64;

    let request_id = led
        .create_request(
            hospital,
            BloodType::APositive,
            450,
            UrgencyLevel::Normal,
            current_time + 7 * 86400,
            address(),
            current_time,
        )
        .unwrap();

    led.cancel_request(request_id, hospital).unwrap();
    assert_eq!(
        led.cancel_request(request_id, hospital),
        Err(ContractError::CannotCancelRequest)
    );
}

#[test]
fn test_get_hospital_requests() {
    let (mut led, _admin) = create_test_contract();
    let hospital1 = setup_authorized_hospital(&mut led, HOSPITAL);
    let hospital2 = setup_authorized_hospital(&mut led, HOSPITAL2);

    let current_time = 1000000u64;
    let required_by = current_time + 7 * 86400;

    let id1 = led
        .create_request(
            hospital1,
            BloodType::APositive,
            450,
            UrgencyLevel::Normal,
            required_by,
            address(),
            current_time,
        )
        .unwrap();
    let id2 = led
        .create_request(
            hospital1,
            BloodType::BPositive,
            450,
            UrgencyLevel::Normal,
            required_by,
            address(),
            current_time,
        )
        .unwrap();
    let _id3 = led
        .create_request(
            hospital2,
            BloodType::ONegative,
            450,
            UrgencyLevel::Normal,
            required_by,
            address(),
            current_time,
        )
        .unwrap();

    let hospital1_requests = led.get_hospital_requests(hospital1);
    assert_eq!(hospital1_requests.len(), 2);
    assert_eq!(hospital1_requests[0], id1);
    assert_eq!(hospital1_requests[1], id2);

    let hospital2_requests = led.get_hospital_requests(hospital2);
    assert_eq!(hospital2_requests.len(), 1);
}

#[test]
fn test_get_requests_by_status() {
    let (mut led, _admin) = create_test_contract();
    let hospital = setup_authorized_hospital(&mut led, HOSPITAL);

    let current_time = 1000000u64;
    let required_by = current_time + 7 * 86400;

    let id1 = led
        .create_request(
            hospital,
            BloodType::APositive,
            450,
            UrgencyLevel::Normal,
            required_by,
            address(),
            current_time,
        )
        .unwrap();
    let id2 = led
        .create_request(
            hospital,
            BloodType::BPositive,
            450,
            UrgencyLevel::Normal,
            required_by,
            address(),
            current_time,
        )
        .unwrap();

    led.approve_request(id1, current_time).unwrap();

    let pending_requests = led.get_requests_by_status(RequestStatus::Pending);
    assert_eq!(pending_requests.len(), 1);
    assert_eq!(pending_requests[0], id2);

    let approved_requests = led.get_requests_by_status(RequestStatus::Approved);
    assert_eq!(approved_requests.len(), 1);
    assert_eq!(approved_requests[0], id1);
}

#[test]
fn test_get_requests_by_blood_type() {
    let (mut led, _admin) = create_test_contract();
    let hospital = setup_authorized_hospital(&mut led, HOSPITAL);

    let current_time = 1000000u64;
    let required_by = current_time + 7 * 86400;

    let id1 = led
        .create_request(
            hospital,
            BloodType::APositive,
            450,
            UrgencyLevel::Normal,
            required_by,
            address(),
            current_time,
        )
        .unwrap();
    let _id2 = led
        .create_request(
            hospital,
            BloodType::BPositive,
            450,
            UrgencyLevel::Normal,
            required_by,
            address(),
            current_time,
        )
        .unwrap();
    let id3 = led
        .create_request(
            hospital,
            BloodType::APositive,
            900,
            UrgencyLevel::Urgent,
            current_time + 6 * 3600,
            address(),
            current_time,
        )
        .unwrap();

    let a_positive_requests = led.get_requests_by_blood_type(BloodType::APositive);
    assert_eq!(a_positive_requests.len(), 2);
    assert_eq!(a_positive_requests[0], id1);
    assert_eq!(a_positive_requests[1], id3);
}

#[test]
fn test_get_requests_by_urgency() {
    let (mut led, _admin) = create_test_contract();
    let hospital = setup_authorized_hospital(&mut led, HOSPITAL);

    let current_time = 1000000u64;

    let id1 = led
        .create_request(
            hospital,
            BloodType::APositive,
            450,
            UrgencyLevel::Critical,
            current_time + 2 * 3600,
            address(),
            current_time,
        )
        .unwrap();
    let _id2 = led
        .create_request(
            hospital,
            BloodType::BPositive,
            450,
            UrgencyLevel::Normal,
            current_time + 48 * 3600,
            address(),
            current_time,
        )
        .unwrap();
    let id3 = led
        .create_request(
            hospital,
            BloodType::ONegative,
            450,
            UrgencyLevel::Critical,
            current_time + 3 * 3600,
            address(),
            current_time,
        )
        .unwrap();

    let critical_requests = led.get_requests_by_urgency(UrgencyLevel::Critical);
    assert_eq!(critical_requests.len(), 2);
    assert_eq!(critical_requests[0], id1);
    assert_eq!(critical_requests[1], id3);
}

#[test]
fn test_get_request_not_found() {
    let (led, _admin) = create_test_contract();
    let r = led.get_request(999);
    assert_eq!(r.err(), Some(ContractError::NotFound));
}

#[test]
fn test_critical_request_insufficient_time() {
    let (mut led, _admin) = create_test_contract();
    let hospital = setup_authorized_hospital(&mut led, HOSPITAL);
    let current_time = 1000000u64;
    // Critical needs at least one hour; thirty minutes is too short.
    let r = led.create_request(
        hospital,
        BloodType::APositive,
        450,
        UrgencyLevel::Critical,
        current_time + 1800,
        address(),
        current_time,
    );
    assert_eq!(r, Err(ContractError::InvalidRequiredBy));
}

#[test]
fn test_urgent_request_insufficient_time() {
    let (mut led, _admin) = create_test_contract();
    let hospital = setup_authorized_hospital(&mut led, HOSPITAL);
    let current_time = 1000000u64;
    // Urgent needs at least four hours; two hours is too short.
    let r = led.create_request(
        hospital,
        BloodType::APositive,
        450,
        UrgencyLevel::Urgent,
        current_time + 2 * 3600,
        address(),
        current_time,
    );
    assert_eq!(r, Err(ContractError::InvalidRequiredBy));
}

#[test]
fn test_normal_request_insufficient_time() {
    let (mut led, _admin) = create_test_contract();
    let hospital = setup_authorized_hospital(&mut led, HOSPITAL);
    let current_time = 1000000u64;
    // Normal needs at least a day; twelve hours is too short.
    let r = led.create_request(
        hospital,
        BloodType::APositive,
        450,
        UrgencyLevel::Normal,
        current_time + 12 * 3600,
        address(),
        current_time,
    );
    assert_eq!(r, Err(ContractError::InvalidRequiredBy));
}

#[test]
fn test_urgency_minimum_lead_time_boundaries() {
    let (mut led, _admin) = create_test_contract();
    let hospital = setup_authorized_hospital(&mut led, HOSPITAL);
    let current_time = 1000000u64;

    // Exactly the minimum lead time is accepted for each urgency level.
    let critical = led.create_request(
        hospital,
        BloodType::APositive,
        450,
        UrgencyLevel::Critical,
        current_time + 3600,
        address(),
        current_time,
    );
    assert_eq!(critical, Ok(1));
    let urgent = led.create_request(
        hospital,
        BloodType::APositive,
        450,
        UrgencyLevel::Urgent,
        current_time + 4 * 3600,
        address(),
        current_time,
    );
    assert_eq!(urgent, Ok(2));
    let normal = led.create_request(
        hospital,
        BloodType::APositive,
        450,
        UrgencyLevel::Normal,
        current_time + 24 * 3600,
        address(),
        current_time,
    );
    assert_eq!(normal, Ok(3));
    // The shared maximum: exactly thirty days passes, a second more fails.
    let at_max = led.create_request(
        hospital,
        BloodType::APositive,
        450,
        UrgencyLevel::Normal,
        current_time + 30 * 86400,
        address(),
        current_time,
    );
    assert_eq!(at_max, Ok(4));
    let past_max = led.create_request(
        hospital,
        BloodType::APositive,
        450,
        UrgencyLevel::Normal,
        current_time + 30 * 86400 + 1,
        address(),
        current_time,
    );
    assert_eq!(past_max, Err(ContractError::InvalidRequiredBy));
}

#[test]
fn test_approve_elapsed_then_cancel() {
    // Scenario: approving a pending request whose deadline has elapsed
    // fails with the expiry error, not the transition error; cancelling
    // the same request still succeeds, for cancellation reads no clock.
    let (mut led, _admin) = create_test_contract();
    let hospital = setup_authorized_hospital(&mut led, HOSPITAL);
    let current_time = 1000000u64;
    let required_by = current_time + 2 * 86400;

    let request_id = led
        .create_request(
            hospital,
            BloodType::APositive,
            450,
            UrgencyLevel::Normal,
            required_by,
            address(),
            current_time,
        )
        .unwrap();

    let late = required_by + 1;
    assert_eq!(led.approve_request(request_id, late), Err(ContractError::Expired));
    assert_eq!(led.cancel_request(request_id, hospital), Ok(()));

    let request = led.get_request(request_id).unwrap();
    assert_eq!(request.status, RequestStatus::Cancelled);
}

#[test]
fn test_transition_legality_table() {
    // Pending -> Approved | Cancelled | Expired.
    assert!(RequestStatus::Pending.can_transition_to(&RequestStatus::Approved));
    assert!(RequestStatus::Pending.can_transition_to(&RequestStatus::Cancelled));
    assert!(RequestStatus::Pending.can_transition_to(&RequestStatus::Expired));
    assert!(!RequestStatus::Pending.can_transition_to(&RequestStatus::InDelivery));
    assert!(!RequestStatus::Pending.can_transition_to(&RequestStatus::Completed));
    // Approved -> InDelivery | Cancelled | Expired.
    assert!(RequestStatus::Approved.can_transition_to(&RequestStatus::InDelivery));
    assert!(RequestStatus::Approved.can_transition_to(&RequestStatus::Cancelled));
    assert!(RequestStatus::Approved.can_transition_to(&RequestStatus::Expired));
    assert!(!RequestStatus::Approved.can_transition_to(&RequestStatus::Pending));
    // InDelivery -> Completed.
    assert!(RequestStatus::InDelivery.can_transition_to(&RequestStatus::Completed));
    assert!(!RequestStatus::InDelivery.can_transition_to(&RequestStatus::Cancelled));
    // Terminal statuses allow no transition at all.
    let all = [
        RequestStatus::Pending,
        RequestStatus::Approved,
        RequestStatus::InDelivery,
        RequestStatus::Completed,
        RequestStatus::Cancelled,
        RequestStatus::Expired,
    ];
    for terminal in [RequestStatus::Completed, RequestStatus::Cancelled, RequestStatus::Expired] {
        for target in all {
            assert!(!terminal.can_transition_to(&target));
        }
    }
    // Cancellation is narrower than "may transition to Cancelled".
    assert!(RequestStatus::Pending.can_cancel());
    assert!(RequestStatus::Approved.can_cancel());
    assert!(!RequestStatus::InDelivery.can_cancel());
    assert!(!RequestStatus::Completed.can_cancel());
    assert!(!RequestStatus::Cancelled.can_cancel());
    assert!(!RequestStatus::Expired.can_cancel());
}

#[test]
fn test_blood_request_entity_validate() {
    let now = 1000000u64;
    let request = lifebank::types::BloodRequest {
        id: 1,
        hospital_id: HOSPITAL,
        blood_type: BloodType::APositive,
        quantity_ml: 450,
        urgency: UrgencyLevel::Normal,
        status: RequestStatus::Pending,
        created_at: now,
        required_by: now + 7 * 86400,
        fulfilled_at: None,
        assigned_units: Vec::new(),
        delivery_address: address(),
        metadata: Vec::new(),
    };
    assert_eq!(request.validate(now), Ok(()));

    let mut bad_quantity = lifebank::types::copy_request(&request);
    bad_quantity.quantity_ml = 10001;
    assert_eq!(bad_quantity.validate(now), Err(ContractError::InvalidQuantity));

    let mut bad_window = lifebank::types::copy_request(&request);
    bad_window.required_by = now + 3600;
    assert_eq!(bad_window.validate(now), Err(ContractError::InvalidRequiredBy));

    let mut bad_address = lifebank::types::copy_request(&request);
    bad_address.delivery_address = String::new();
    assert_eq!(bad_address.validate(now), Err(ContractError::InvalidDeliveryAddress));
}

#[test]
fn test_status_buckets_after_transitions() {
    // After a status change an id stands in exactly one status bucket.
    let (mut led, _admin) = create_test_contract();
    let hospital = setup_authorized_hospital(&mut led, HOSPITAL);
    let current_time = 1000000u64;
    let required_by = current_time + 7 * 86400;

    let id1 = led
        .create_request(
            hospital,
            BloodType::APositive,
            450,
            UrgencyLevel::Normal,
            required_by,
            address(),
            current_time,
        )
        .unwrap();
    let id2 = led
        .create_request(
            hospital,
            BloodType::BPositive,
            450,
            UrgencyLevel::Normal,
            required_by,
            address(),
            current_time,
        )
        .unwrap();
    let id3 = led
        .create_request(
            hospital,
            BloodType::ONegative,
            450,
            UrgencyLevel::Normal,
            required_by,
            address(),
            current_time,
        )
        .unwrap();

    led.approve_request(id2, current_time).unwrap();
    led.cancel_request(id3, hospital).unwrap();

    assert_eq!(led.get_requests_by_status(RequestStatus::Pending), vec![id1]);
    assert_eq!(led.get_requests_by_status(RequestStatus::Approved), vec![id2]);
    assert_eq!(led.get_requests_by_status(RequestStatus::Cancelled), vec![id3]);
    assert!(led.get_requests_by_status(RequestStatus::Completed).is_empty());
    assert!(led.get_requests_by_status(RequestStatus::Expired).is_empty());
    assert!(led.get_requests_by_status(RequestStatus::InDelivery).is_empty());
}
