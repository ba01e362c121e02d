use parking_area::error::Error;
use parking_area::handler::{create, detail, get_by_owner, update};
use parking_area::model::{
    CreateParkingLotPayload, ParkingLotDetailRow, ParkingLotWithCountOfKeeper, Role,
    UpdateParkingLotPayload, User,
};

fn create_payload(owner_id: u128) -> CreateParkingLotPayload {
    CreateParkingLotPayload {
        area_name: "North Field".to_string(),
        address: "12 Elm Street".to_string(),
        file_name: Some("north.png".to_string()),
        car_cost: 2500,
        motor_cost: 1200,
        owner_id,
    }
}

fn empty_update_payload() -> UpdateParkingLotPayload {
    UpdateParkingLotPayload {
        area_name: None,
        address: None,
        file_name: None,
        car_cost: None,
        motor_cost: None,
        owner_id: None,
        park_keeper_ids: None,
    }
}

fn detail_row(keeper: Option<(u128, &str)>) -> ParkingLotDetailRow {
    ParkingLotDetailRow {
        id: 42,
        area_name: "North Field".to_string(),
        address: "12 Elm Street".to_string(),
        image_url: "some url".to_string(),
        car_cost: 2500,
        motor_cost: 1200,
        owner_id: 7,
        created_at: Some(1_700_000_000_000_000),
        updated_at: None,
        keeper_id: keeper.map(|(id, _)| id),
        keeper_name: keeper.map(|(_, name)| name.to_string()),
    }
}

#[test]
fn create_rejects_non_owner_role() {
    let r = create(create_payload(7), Ok(User { id: 7, role: Role::ParkKeeper }));
    match r {
        Err(Error::BadRequest(m)) => assert_eq!(m, "Related user is not having owner role"),
        _ => panic!("expected a bad-request rejection"),
    }
}

#[test]
fn create_propagates_lookup_failure() {
    let r = create(create_payload(7), Err(Error::Database("no such user".to_string())));
    match r {
        Err(Error::Database(m)) => assert_eq!(m, "no such user"),
        _ => panic!("expected the lookup failure to pass through"),
    }
}

#[test]
fn create_fills_server_fields() {
    let lot = create(create_payload(7), Ok(User { id: 7, role: Role::ParkOwner })).unwrap();
    assert_eq!(lot.area_name, "North Field");
    assert_eq!(lot.address, "12 Elm Street");
    assert_eq!(lot.image_url, "some url");
    assert_eq!(lot.car_cost, 2500);
    assert_eq!(lot.motor_cost, 1200);
    assert_eq!(lot.owner_id, 7);
    assert!(lot.created_at.is_some());
    assert!(lot.updated_at.is_none());
    assert_eq!((lot.id >> 76) & 0xf, 4);
}

#[test]
fn create_generates_distinct_ids() {
    let a = create(create_payload(7), Ok(User { id: 7, role: Role::ParkOwner })).unwrap();
    let b = create(create_payload(7), Ok(User { id: 7, role: Role::ParkOwner })).unwrap();
    assert_ne!(a.id, b.id);
}

#[test]
fn update_empty_keeper_list_keeps_associations() {
    let mut payload = empty_update_payload();
    payload.park_keeper_ids = Some(vec![]);
    let plan = update(payload, None, None).unwrap();
    assert!(plan.keeper_replacement.is_none());
}

#[test]
fn update_nonempty_keeper_list_replaces_associations() {
    let mut payload = empty_update_payload();
    payload.park_keeper_ids = Some(vec![11, 22]);
    let plan = update(payload, None, None).unwrap();
    assert_eq!(plan.keeper_replacement, Some(vec![11, 22]));
}

#[test]
fn update_missing_image_fails() {
    let mut payload = empty_update_payload();
    payload.file_name = Some("gone.png".to_string());
    payload.park_keeper_ids = Some(vec![11]);
    let r = update(payload, None, Some(false));
    match r {
        Err(Error::BadRequest(m)) => assert_eq!(m, "Image not found"),
        _ => panic!("expected the image rejection"),
    }
}

#[test]
fn update_existing_image_becomes_image_url() {
    let mut payload = empty_update_payload();
    payload.file_name = Some("kept.png".to_string());
    let plan = update(payload, None, Some(true)).unwrap();
    assert_eq!(plan.changes.image_url, Some("kept.png".to_string()));
    assert!(plan.keeper_replacement.is_none());
}

#[test]
fn update_rejects_non_owner_role() {
    let mut payload = empty_update_payload();
    payload.owner_id = Some(9);
    let r = update(payload, Some(Ok(User { id: 9, role: Role::ParkKeeper })), None);
    match r {
        Err(Error::BadRequest(m)) => assert_eq!(m, "Related user is not having owner role"),
        _ => panic!("expected a bad-request rejection"),
    }
}

#[test]
fn update_propagates_lookup_failure() {
    let mut payload = empty_update_payload();
    payload.owner_id = Some(9);
    let r = update(payload, Some(Err(Error::Database("gone".to_string()))), None);
    match r {
        Err(Error::Database(m)) => assert_eq!(m, "gone"),
        _ => panic!("expected the lookup failure to pass through"),
    }
}

#[test]
fn update_applies_partial_fields() {
    let payload = UpdateParkingLotPayload {
        area_name: Some("South Field".to_string()),
        address: None,
        file_name: None,
        car_cost: Some(3000),
        motor_cost: None,
        owner_id: Some(9),
        park_keeper_ids: None,
    };
    let plan = update(payload, Some(Ok(User { id: 9, role: Role::ParkOwner })), None).unwrap();
    assert_eq!(plan.changes.id, None);
    assert_eq!(plan.changes.area_name, Some("South Field".to_string()));
    assert_eq!(plan.changes.address, None);
    assert_eq!(plan.changes.image_url, None);
    assert_eq!(plan.changes.car_cost, Some(3000));
    assert_eq!(plan.changes.motor_cost, None);
    assert_eq!(plan.changes.owner_id, Some(9));
    assert_eq!(plan.changes.created_at, None);
    assert!(plan.changes.updated_at.is_some());
}

#[test]
fn detail_missing_lot_is_all_null_success() {
    let d = detail(vec![]);
    assert_eq!(d.id, None);
    assert_eq!(d.area_name, None);
    assert_eq!(d.address, None);
    assert_eq!(d.image_url, None);
    assert_eq!(d.car_cost, None);
    assert_eq!(d.motor_cost, None);
    assert_eq!(d.owner_id, None);
    assert_eq!(d.created_at, None);
    assert_eq!(d.updated_at, None);
    assert_eq!(d.keepers.as_ref().map(|ks| ks.len()), Some(0));
}

#[test]
fn detail_two_keepers_collects_both() {
    let rows = vec![detail_row(Some((101, "Ana"))), detail_row(Some((102, "Ben")))];
    let d = detail(rows);
    assert_eq!(d.id, Some(42));
    assert_eq!(d.area_name, Some("North Field".to_string()));
    assert_eq!(d.address, Some("12 Elm Street".to_string()));
    assert_eq!(d.image_url, Some("some url".to_string()));
    assert_eq!(d.car_cost, Some(2500));
    assert_eq!(d.motor_cost, Some(1200));
    assert_eq!(d.owner_id, Some(7));
    assert_eq!(d.created_at, Some(1_700_000_000_000_000));
    assert_eq!(d.updated_at, None);
    let keepers = d.keepers.unwrap();
    assert_eq!(keepers.len(), 2);
    assert_eq!(keepers[0].id, Some(101));
    assert_eq!(keepers[0].name, Some("Ana".to_string()));
    assert_eq!(keepers[1].id, Some(102));
    assert_eq!(keepers[1].name, Some("Ben".to_string()));
}

#[test]
fn detail_skips_rows_without_keeper() {
    let d = detail(vec![detail_row(None)]);
    assert_eq!(d.id, Some(42));
    assert_eq!(d.keepers.map(|ks| ks.len()), Some(0));
}

#[test]
fn get_by_owner_empty_is_success() {
    let r = get_by_owner(Ok(vec![]));
    assert!(matches!(r, Ok(ref lots) if lots.is_empty()));
}

#[test]
fn get_by_owner_passes_lots_through() {
    let lot = ParkingLotWithCountOfKeeper {
        id: 42,
        area_name: "North Field".to_string(),
        address: "12 Elm Street".to_string(),
        image_url: "some url".to_string(),
        car_cost: 2500,
        motor_cost: 1200,
        owner_id: 7,
        created_at: Some(1_700_000_000_000_000),
        updated_at: None,
        count_of_keeper: 3,
    };
    let r = get_by_owner(Ok(vec![lot])).unwrap();
    assert_eq!(r.len(), 1);
    assert_eq!(r[0].id, 42);
    assert_eq!(r[0].count_of_keeper, 3);
}

#[test]
fn get_by_owner_passes_error_through() {
    let r = get_by_owner(Err(Error::Database("pool closed".to_string())));
    match r {
        Err(e) => assert_eq!(e.message(), "pool closed"),
        _ => panic!("expected the failure to pass through"),
    }
}
