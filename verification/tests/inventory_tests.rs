use lifebank::error::ContractError;
use lifebank::inventory::{self, InventoryContract};
use lifebank::types::{BloodStatus, BloodType};

const ADMIN: u64 = 1;
const DONOR: u64 = 77;

fn create_test_contract() -> (InventoryContract, u64) {
    let mut inv = InventoryContract::new();
    inv.initialize(ADMIN).unwrap();
    (inv, ADMIN)
}

#[test]
fn test_initialize_success() {
    let (inv, admin) = create_test_contract();
    let stored_admin = inventory::get_admin(&inv);
    assert_eq!(stored_admin, admin);
}

#[test]
fn test_initialize_already_initialized() {
    let (mut inv, admin) = create_test_contract();
    assert_eq!(inv.initialize(admin), Err(ContractError::AlreadyInitialized));
}

#[test]
fn test_register_blood_success() {
    let (mut inv, admin) = create_test_contract();
    let bank = admin;
    let blood_type = BloodType::APositive;
    let quantity_ml = 450u32;
    let current_time = 1000u64;
    let expiration = current_time + 30 * 86400;

    let blood_unit_id = inv
        .register_blood(bank, blood_type, quantity_ml, expiration, Some(DONOR), current_time)
        .unwrap();
    assert_eq!(blood_unit_id, 1);

    let stored_unit = inv.get_blood_unit(blood_unit_id).unwrap();
    assert_eq!(stored_unit.id, 1);
    assert_eq!(stored_unit.blood_type, blood_type);
    assert_eq!(stored_unit.quantity_ml, quantity_ml);
    assert_eq!(stored_unit.bank_id, bank);
    assert_eq!(stored_unit.donor_id, Some(DONOR));
    assert_eq!(stored_unit.donation_timestamp, current_time);
    assert_eq!(stored_unit.expiration_timestamp, expiration);
    assert_eq!(stored_unit.status, BloodStatus::Available);
    assert!(stored_unit.metadata.is_empty());
}

#[test]
fn test_register_blood_anonymous_donor() {
    let (mut inv, admin) = create_test_contract();
    let current_time = 1000u64;

    let blood_unit_id = inv
        .register_blood(
            admin,
            BloodType::ONegative,
            450,
            current_time + 30 * 86400,
            None,
            current_time,
        )
        .unwrap();

    let stored_unit = inv.get_blood_unit(blood_unit_id).unwrap();
    assert_eq!(stored_unit.donor_id, None);
}

#[test]
fn test_register_blood_increments_id() {
    let (mut inv, admin) = create_test_contract();
    let current_time = 1000u64;
    let expiration = current_time + 30 * 86400;

    let id1 = inv
        .register_blood(admin, BloodType::APositive, 450, expiration, None, current_time)
        .unwrap();
    assert_eq!(id1, 1);

    let id2 = inv
        .register_blood(admin, BloodType::BPositive, 450, expiration, None, current_time)
        .unwrap();
    assert_eq!(id2, 2);

    let id3 = inv
        .register_blood(admin, BloodType::ONegative, 450, expiration, None, current_time)
        .unwrap();
    assert_eq!(id3, 3);
}

#[test]
fn test_register_blood_quantity_too_low() {
    let (mut inv, admin) = create_test_contract();
    let current_time = 1000u64;
    let r = inv.register_blood(
        admin,
        BloodType::APositive,
        50,
        current_time + 30 * 86400,
        None,
        current_time,
    );
    assert_eq!(r, Err(ContractError::InvalidQuantity));
}

#[test]
fn test_register_blood_quantity_too_high() {
    let (mut inv, admin) = create_test_contract();
    let current_time = 1000u64;
    let r = inv.register_blood(
        admin,
        BloodType::APositive,
        700,
        current_time + 30 * 86400,
        None,
        current_time,
    );
    assert_eq!(r, Err(ContractError::InvalidQuantity));
}

#[test]
fn test_register_blood_expiration_in_past() {
    let (mut inv, admin) = create_test_contract();
    let current_time = 1000u64;
    let r = inv.register_blood(
        admin,
        BloodType::APositive,
        450,
        current_time - 100,
        None,
        current_time,
    );
    assert_eq!(r, Err(ContractError::InvalidExpiration));
}

#[test]
fn test_register_blood_expiration_too_far_future() {
    let (mut inv, admin) = create_test_contract();
    let current_time = 1000u64;
    // 60 days is beyond the 42-day maximum for whole blood.
    let r = inv.register_blood(
        admin,
        BloodType::APositive,
        450,
        current_time + 60 * 86400,
        None,
        current_time,
    );
    assert_eq!(r, Err(ContractError::InvalidExpiration));
}

#[test]
fn test_register_blood_insufficient_shelf_life() {
    let (mut inv, admin) = create_test_contract();
    let current_time = 1000u64;
    // Only 12 hours of shelf life, below the one-day minimum.
    let r = inv.register_blood(
        admin,
        BloodType::APositive,
        450,
        current_time + 43200,
        None,
        current_time,
    );
    assert_eq!(r, Err(ContractError::InvalidExpiration));
}

#[test]
fn test_register_blood_unauthorized_bank() {
    let (mut inv, _admin) = create_test_contract();
    let unauthorized_bank = 999u64;
    let current_time = 1000u64;
    let r = inv.register_blood(
        unauthorized_bank,
        BloodType::APositive,
        450,
        current_time + 30 * 86400,
        None,
        current_time,
    );
    assert_eq!(r, Err(ContractError::NotAuthorizedBloodBank));
}

#[test]
fn test_register_all_blood_types() {
    let (mut inv, admin) = create_test_contract();
    let current_time = 1000u64;
    let expiration = current_time + 30 * 86400;

    let blood_types = [
        BloodType::APositive,
        BloodType::ANegative,
        BloodType::BPositive,
        BloodType::BNegative,
        BloodType::ABPositive,
        BloodType::ABNegative,
        BloodType::OPositive,
        BloodType::ONegative,
    ];

    for (i, blood_type) in blood_types.iter().enumerate() {
        let id = inv
            .register_blood(admin, *blood_type, 450, expiration, None, current_time)
            .unwrap();
        assert_eq!(id, (i + 1) as u64);

        let unit = inv.get_blood_unit(id).unwrap();
        assert_eq!(unit.blood_type, *blood_type);
    }
}

#[test]
fn test_get_blood_unit_not_found() {
    let (inv, _admin) = create_test_contract();
    let r = inv.get_blood_unit(999);
    assert_eq!(r.err(), Some(ContractError::NotFound));
}

#[test]
fn test_register_blood_edge_case_quantities() {
    let (mut inv, admin) = create_test_contract();
    let current_time = 1000u64;
    let expiration = current_time + 30 * 86400;

    // Minimum valid quantity.
    let id1 = inv
        .register_blood(admin, BloodType::APositive, 100, expiration, None, current_time)
        .unwrap();
    let unit1 = inv.get_blood_unit(id1).unwrap();
    assert_eq!(unit1.quantity_ml, 100);

    // Maximum valid quantity.
    let id2 = inv
        .register_blood(admin, BloodType::BPositive, 600, expiration, None, current_time)
        .unwrap();
    let unit2 = inv.get_blood_unit(id2).unwrap();
    assert_eq!(unit2.quantity_ml, 600);
}

#[test]
fn test_register_blood_edge_case_expiration() {
    let (mut inv, admin) = create_test_contract();
    let current_time = 1000u64;

    // Minimum shelf life: one day plus one second.
    let min_expiration = current_time + 86400 + 1;
    let id1 = inv
        .register_blood(admin, BloodType::APositive, 450, min_expiration, None, current_time)
        .unwrap();
    let unit1 = inv.get_blood_unit(id1).unwrap();
    assert_eq!(unit1.expiration_timestamp, min_expiration);

    // Maximum shelf life: 42 days.
    let max_expiration = current_time + 42 * 86400;
    let id2 = inv
        .register_blood(admin, BloodType::BPositive, 450, max_expiration, None, current_time)
        .unwrap();
    let unit2 = inv.get_blood_unit(id2).unwrap();
    assert_eq!(unit2.expiration_timestamp, max_expiration);
}

#[test]
fn test_register_blood_shelf_life_boundaries() {
    let (mut inv, admin) = create_test_contract();
    let current_time = 1000u64;

    // Exactly one day of shelf life is already acceptable ...
    let id1 = inv
        .register_blood(
            admin,
            BloodType::APositive,
            450,
            current_time + 86400,
            None,
            current_time,
        )
        .unwrap();
    assert_eq!(id1, 1);

    // ... one second less is not; one second past 42 days is not either.
    let too_short = inv.register_blood(
        admin,
        BloodType::APositive,
        450,
        current_time + 86400 - 1,
        None,
        current_time,
    );
    assert_eq!(too_short, Err(ContractError::InvalidExpiration));
    let too_long = inv.register_blood(
        admin,
        BloodType::APositive,
        450,
        current_time + 42 * 86400 + 1,
        None,
        current_time,
    );
    assert_eq!(too_long, Err(ContractError::InvalidExpiration));
}

#[test]
fn test_register_blood_not_initialized() {
    let mut inv = InventoryContract::new();
    let current_time = 1000u64;
    let r = inv.register_blood(
        ADMIN,
        BloodType::APositive,
        450,
        current_time + 30 * 86400,
        None,
        current_time,
    );
    assert_eq!(r, Err(ContractError::NotInitialized));
}

#[test]
fn test_counter_not_advanced_by_rejected_registration() {
    // Scenario: a valid registration takes id 1; a rejected one consumes
    // no id, so the next successful registration takes id 2, not 3.
    let (mut inv, admin) = create_test_contract();
    let current_time = 1000u64;
    let expiration = current_time + 30 * 86400;

    let id1 = inv
        .register_blood(admin, BloodType::APositive, 450, expiration, None, current_time)
        .unwrap();
    assert_eq!(id1, 1);
    let unit1 = inv.get_blood_unit(id1).unwrap();
    assert_eq!(unit1.status, BloodStatus::Available);

    let rejected = inv.register_blood(
        admin,
        BloodType::APositive,
        50,
        expiration,
        None,
        current_time,
    );
    assert_eq!(rejected, Err(ContractError::InvalidQuantity));
    assert_eq!(inventory::get_blood_unit_counter(&inv), Ok(1));

    let id2 = inv
        .register_blood(admin, BloodType::BPositive, 450, expiration, None, current_time)
        .unwrap();
    assert_eq!(id2, 2);
}

#[test]
fn test_counter_read_before_initialization_fails() {
    let inv = InventoryContract::new();
    assert_eq!(
        inventory::get_blood_unit_counter(&inv),
        Err(ContractError::NotInitialized)
    );
    let (inv2, _admin) = create_test_contract();
    assert_eq!(inventory::get_blood_unit_counter(&inv2), Ok(0));
}

#[test]
fn test_blood_unit_exists() {
    let (mut inv, admin) = create_test_contract();
    let current_time = 1000u64;
    assert!(!inventory::blood_unit_exists(&inv, 1));
    inv.register_blood(
        admin,
        BloodType::APositive,
        450,
        current_time + 30 * 86400,
        None,
        current_time,
    )
    .unwrap();
    assert!(inventory::blood_unit_exists(&inv, 1));
    assert!(!inventory::blood_unit_exists(&inv, 2));
}

#[test]
fn test_blood_status_transition_table() {
    // Available -> Reserved | Expired | Discarded.
    assert!(BloodStatus::Available.can_transition_to(&BloodStatus::Reserved));
    assert!(BloodStatus::Available.can_transition_to(&BloodStatus::Expired));
    assert!(BloodStatus::Available.can_transition_to(&BloodStatus::Discarded));
    assert!(!BloodStatus::Available.can_transition_to(&BloodStatus::Issued));
    // Reserved -> Issued | Expired | Discarded.
    assert!(BloodStatus::Reserved.can_transition_to(&BloodStatus::Issued));
    assert!(BloodStatus::Reserved.can_transition_to(&BloodStatus::Expired));
    assert!(BloodStatus::Reserved.can_transition_to(&BloodStatus::Discarded));
    assert!(!BloodStatus::Reserved.can_transition_to(&BloodStatus::Available));
    // Issued, Expired and Discarded are terminal.
    let all = [
        BloodStatus::Available,
        BloodStatus::Reserved,
        BloodStatus::Issued,
        BloodStatus::Expired,
        BloodStatus::Discarded,
    ];
    for terminal in [BloodStatus::Issued, BloodStatus::Expired, BloodStatus::Discarded] {
        for target in all {
            assert!(!terminal.can_transition_to(&target));
        }
    }
}

#[test]
fn test_blood_unit_entity_validate() {
    let now = 1000u64;
    let unit = lifebank::types::BloodUnit {
        id: 1,
        blood_type: BloodType::APositive,
        quantity_ml: 450,
        bank_id: ADMIN,
        donor_id: None,
        donation_timestamp: now,
        expiration_timestamp: now + 30 * 86400,
        status: BloodStatus::Available,
        metadata: Vec::new(),
    };
    assert_eq!(unit.validate(now), Ok(()));

    let mut bad_quantity = lifebank::types::copy_unit(&unit);
    bad_quantity.quantity_ml = 99;
    assert_eq!(bad_quantity.validate(now), Err(ContractError::InvalidQuantity));

    let mut bad_expiration = lifebank::types::copy_unit(&unit);
    bad_expiration.expiration_timestamp = now + 3600;
    assert_eq!(bad_expiration.validate(now), Err(ContractError::InvalidExpiration));
}

#[test]
fn test_unit_indexes_after_registration() {
    // Index consistency: three units, two of them A+, one with a donor.
    let (mut inv, admin) = create_test_contract();
    let current_time = 1000u64;
    let expiration = current_time + 30 * 86400;

    let id1 = inv
        .register_blood(admin, BloodType::APositive, 450, expiration, Some(DONOR), current_time)
        .unwrap();
    let id2 = inv
        .register_blood(admin, BloodType::BPositive, 450, expiration, None, current_time)
        .unwrap();
    let id3 = inv
        .register_blood(admin, BloodType::APositive, 500, expiration, None, current_time)
        .unwrap();

    let a_positive = inv.blood_type_index.get(lifebank::types::blood_type_code(
        BloodType::APositive,
    ));
    assert_eq!(a_positive, vec![id1, id3]);
    let b_positive = inv.blood_type_index.get(lifebank::types::blood_type_code(
        BloodType::BPositive,
    ));
    assert_eq!(b_positive, vec![id2]);

    let bank_bucket = inv.bank_index.get(admin);
    assert_eq!(bank_bucket, vec![id1, id2, id3]);

    let available = inv.status_index.get(lifebank::types::blood_status_code(
        BloodStatus::Available,
    ));
    assert_eq!(available, vec![id1, id2, id3]);

    // Only the attributed donation is filed under its donor; the
    // anonymous ones appear in no donor bucket.
    let donor_bucket = inv.donor_index.get(DONOR);
    assert_eq!(donor_bucket, vec![id1]);
}
