use company_entity::descriptor::Model;
use company_entity::store::{ConstraintError, Database, UserRow, VehicleRow, ZoneRow};

fn company(id: i32, email: &str, zone: i32, community_area: i32) -> Model {
    Model {
        id,
        latitude: 41.8f32.to_bits(),
        longitude: (-87.6f32).to_bits(),
        display_name: "Acme".to_owned(),
        email: email.to_owned(),
        zone,
        community_area,
    }
}

fn zone(id: i32, name: &str) -> ZoneRow {
    ZoneRow { id, name: name.to_owned() }
}

#[test]
fn empty_store() {
    let mut db = Database::new();
    assert_eq!(db.zone_count(), 0);
    assert_eq!(db.company_count(), 0);
    assert_eq!(db.user_count(), 0);
    assert_eq!(db.vehicle_count(), 0);
    assert!(db.find_company(1).is_none());
    assert!(db.related_users(1).is_empty());
    assert!(db.related_vehicles(1).is_empty());
    assert!(!db.delete_zone(1));
}

#[test]
fn insert_example_and_conflicts() {
    let mut db = Database::new();
    assert_eq!(db.insert_zone(zone(3, "Loop")), Ok(()));
    assert_eq!(db.insert_company(company(1, "a@acme.com", 3, 3)), Ok(()));
    let m = db.find_company(1).unwrap();
    assert_eq!(m.id, 1);
    assert_eq!(f32::from_bits(m.latitude), 41.8);
    assert_eq!(f32::from_bits(m.longitude), -87.6);
    assert_eq!(m.display_name, "Acme");
    assert_eq!(m.email, "a@acme.com");
    assert_eq!(m.zone, 3);
    assert_eq!(m.community_area, 3);
    // A second insert with the same email but a different id: unique conflict.
    assert_eq!(
        db.insert_company(company(2, "a@acme.com", 3, 3)),
        Err(ConstraintError::UniqueEmailConflict)
    );
    // The same insert repeated with the same id: primary-key conflict.
    assert_eq!(
        db.insert_company(company(1, "b@acme.com", 3, 3)),
        Err(ConstraintError::PrimaryKeyConflict)
    );
    assert_eq!(db.company_count(), 1);
}

#[test]
fn insert_rejects_missing_zone() {
    let mut db = Database::new();
    assert_eq!(db.insert_zone(zone(3, "Loop")), Ok(()));
    assert_eq!(
        db.insert_company(company(1, "a@acme.com", 9, 3)),
        Err(ConstraintError::ForeignKeyViolation)
    );
    assert_eq!(
        db.insert_company(company(1, "a@acme.com", 3, 9)),
        Err(ConstraintError::ForeignKeyViolation)
    );
    assert_eq!(db.company_count(), 0);
    assert_eq!(db.insert_company(company(1, "a@acme.com", 3, 3)), Ok(()));
}

#[test]
fn zone_primary_key_enforced() {
    let mut db = Database::new();
    assert_eq!(db.insert_zone(zone(3, "Loop")), Ok(()));
    assert_eq!(db.insert_zone(zone(3, "Uptown")), Err(ConstraintError::PrimaryKeyConflict));
    assert_eq!(db.zone_count(), 1);
}

#[test]
fn delete_zone_leaves_company_rows_unchanged() {
    let mut db = Database::new();
    assert_eq!(db.insert_zone(zone(3, "Loop")), Ok(()));
    assert_eq!(db.insert_company(company(1, "a@acme.com", 3, 3)), Ok(()));
    assert!(db.delete_zone(3));
    assert_eq!(db.zone_count(), 0);
    assert_eq!(db.company_count(), 1);
    let m = db.find_company(1).unwrap();
    assert_eq!(m.zone, 3);
    assert_eq!(m.community_area, 3);
    assert_eq!(m.email, "a@acme.com");
}

#[test]
fn update_zone_id_leaves_company_rows_unchanged() {
    let mut db = Database::new();
    assert_eq!(db.insert_zone(zone(3, "Loop")), Ok(()));
    assert_eq!(db.insert_company(company(1, "a@acme.com", 3, 3)), Ok(()));
    assert_eq!(db.update_zone_id(3, 7), Ok(true));
    assert_eq!(db.zone_at(0).id, 7);
    let m = db.find_company(1).unwrap();
    assert_eq!(m.zone, 3);
    assert_eq!(m.community_area, 3);
}

#[test]
fn update_zone_id_rejects_conflicts() {
    let mut db = Database::new();
    assert_eq!(db.insert_zone(zone(1, "Loop")), Ok(()));
    assert_eq!(db.insert_zone(zone(2, "Uptown")), Ok(()));
    assert_eq!(db.update_zone_id(1, 2), Err(ConstraintError::PrimaryKeyConflict));
    assert_eq!(db.update_zone_id(1, 1), Ok(true));
    assert_eq!(db.update_zone_id(9, 5), Ok(false));
    assert_eq!(db.zone_at(0).id, 1);
    assert_eq!(db.zone_at(1).id, 2);
}

#[test]
fn update_zone_name_keeps_ids_and_companies() {
    let mut db = Database::new();
    assert_eq!(db.insert_zone(zone(3, "Loop")), Ok(()));
    assert_eq!(db.insert_company(company(1, "a@acme.com", 3, 3)), Ok(()));
    assert!(db.update_zone_name(3, "Near Loop".to_owned()));
    assert_eq!(db.zone_at(0).id, 3);
    assert_eq!(db.zone_at(0).name, "Near Loop");
    assert_eq!(db.company_count(), 1);
    assert!(!db.update_zone_name(9, "Nowhere".to_owned()));
}

#[test]
fn user_insert_constraints() {
    let mut db = Database::new();
    assert_eq!(db.insert_zone(zone(3, "Loop")), Ok(()));
    assert_eq!(db.insert_company(company(1, "a@acme.com", 3, 3)), Ok(()));
    assert_eq!(db.insert_user(UserRow { id: 10, company: 1 }), Ok(()));
    assert_eq!(
        db.insert_user(UserRow { id: 10, company: 1 }),
        Err(ConstraintError::PrimaryKeyConflict)
    );
    assert_eq!(
        db.insert_user(UserRow { id: 11, company: 9 }),
        Err(ConstraintError::ForeignKeyViolation)
    );
    assert_eq!(db.user_count(), 1);
}

#[test]
fn vehicle_insert_constraints() {
    let mut db = Database::new();
    assert_eq!(db.insert_zone(zone(3, "Loop")), Ok(()));
    assert_eq!(db.insert_company(company(1, "a@acme.com", 3, 3)), Ok(()));
    assert_eq!(db.insert_vehicle(VehicleRow { id: 20, company: 1 }), Ok(()));
    assert_eq!(
        db.insert_vehicle(VehicleRow { id: 20, company: 1 }),
        Err(ConstraintError::PrimaryKeyConflict)
    );
    assert_eq!(
        db.insert_vehicle(VehicleRow { id: 21, company: 9 }),
        Err(ConstraintError::ForeignKeyViolation)
    );
    assert_eq!(db.vehicle_count(), 1);
}

#[test]
fn traversal_returns_exactly_the_referencing_rows() {
    let mut db = Database::new();
    assert_eq!(db.insert_zone(zone(3, "Loop")), Ok(()));
    assert_eq!(db.insert_company(company(1, "a@acme.com", 3, 3)), Ok(()));
    assert_eq!(db.insert_company(company(2, "b@acme.com", 3, 3)), Ok(()));
    assert_eq!(db.insert_user(UserRow { id: 10, company: 1 }), Ok(()));
    assert_eq!(db.insert_user(UserRow { id: 11, company: 2 }), Ok(()));
    assert_eq!(db.insert_user(UserRow { id: 12, company: 1 }), Ok(()));
    assert_eq!(db.insert_vehicle(VehicleRow { id: 20, company: 2 }), Ok(()));
    assert_eq!(db.insert_vehicle(VehicleRow { id: 21, company: 1 }), Ok(()));
    assert_eq!(db.user_at(0), &UserRow { id: 10, company: 1 });
    assert_eq!(db.vehicle_at(1), &VehicleRow { id: 21, company: 1 });
    assert_eq!(
        db.related_users(1),
        vec![UserRow { id: 10, company: 1 }, UserRow { id: 12, company: 1 }]
    );
    assert_eq!(db.related_users(2), vec![UserRow { id: 11, company: 2 }]);
    assert_eq!(db.related_users(9), vec![]);
    assert_eq!(db.related_vehicles(1), vec![VehicleRow { id: 21, company: 1 }]);
    assert_eq!(db.related_vehicles(2), vec![VehicleRow { id: 20, company: 2 }]);
    assert_eq!(db.related_vehicles(9), vec![]);
}

#[test]
fn inserted_rows_keep_distinct_ids_and_emails() {
    let mut db = Database::new();
    assert_eq!(db.insert_zone(zone(3, "Loop")), Ok(()));
    let emails = ["a@acme.com", "b@acme.com", "c@acme.com", "a@acme.com", "b@acme.com"];
    for (i, email) in emails.iter().enumerate() {
        let _ = db.insert_company(company(i as i32 % 4, email, 3, 3));
    }
    for i in 0..db.company_count() {
        for j in 0..db.company_count() {
            if i != j {
                assert_ne!(db.company_at(i).id, db.company_at(j).id);
                assert_ne!(db.company_at(i).email, db.company_at(j).email);
            }
        }
    }
}
