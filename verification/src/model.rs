//! The data model of the parking-lot resource.
//!
//! Identifiers are carried as the 128-bit big-endian value of a UUID, and
//! timestamps as microseconds since the Unix epoch. Tariffs (`car_cost`,
//! `motor_cost`) are opaque 64-bit encodings chosen by the caller: the
//! resource stores and returns them but never computes on them.

use vstd::prelude::*;

use crate::fresh;
use crate::fresh::uuid_version;

verus! {

/// A user's role; only `ParkOwner` may own parking lots.
#[derive(Clone, Copy, PartialEq, Eq, Structural, Debug)]
pub enum Role {
    ParkOwner,
    ParkKeeper,
}

/// The fields of a user that this resource reads.
#[derive(Debug)]
pub struct User {
    pub id: u128,
    pub role: Role,
}

/// A stored parking lot.
#[derive(Debug)]
pub struct ParkingLot {
    pub id: u128,
    pub area_name: String,
    pub address: String,
    pub image_url: String,
    pub car_cost: u64,
    pub motor_cost: u64,
    pub owner_id: u128,
    pub created_at: Option<i64>,
    pub updated_at: Option<i64>,
}

/// A partial row update: an absent field means "leave unchanged".
#[derive(Debug)]
pub struct UpdateParkingLot {
    pub id: Option<u128>,
    pub area_name: Option<String>,
    pub address: Option<String>,
    pub image_url: Option<String>,
    pub car_cost: Option<u64>,
    pub motor_cost: Option<u64>,
    pub owner_id: Option<u128>,
    pub created_at: Option<i64>,
    pub updated_at: Option<i64>,
}

/// A parking lot annotated with the number of keepers assigned to it.
#[derive(Debug)]
pub struct ParkingLotWithCountOfKeeper {
    pub id: u128,
    pub area_name: String,
    pub address: String,
    pub image_url: String,
    pub car_cost: u64,
    pub motor_cost: u64,
    pub owner_id: u128,
    pub created_at: Option<i64>,
    pub updated_at: Option<i64>,
    pub count_of_keeper: u64,
}

/// One row of the detail join: the lot's own columns, plus the columns of
/// one assigned keeper, or no keeper columns where none is assigned.
#[derive(Debug)]
pub struct ParkingLotDetailRow {
    pub id: u128,
    pub area_name: String,
    pub address: String,
    pub image_url: String,
    pub car_cost: u64,
    pub motor_cost: u64,
    pub owner_id: u128,
    pub created_at: Option<i64>,
    pub updated_at: Option<i64>,
    pub keeper_id: Option<u128>,
    pub keeper_name: Option<String>,
}

/// One keeper entry of a detail response.
#[derive(Debug)]
pub struct KeeperOnDetailParkingLot {
    pub id: Option<u128>,
    pub name: Option<String>,
}

/// The detail response: every scalar field absent when the lot does not
/// exist, and the keepers assigned to it.
#[derive(Debug)]
pub struct DetailParkingLot {
    pub id: Option<u128>,
    pub area_name: Option<String>,
    pub address: Option<String>,
    pub image_url: Option<String>,
    pub car_cost: Option<u64>,
    pub motor_cost: Option<u64>,
    pub owner_id: Option<u128>,
    pub created_at: Option<i64>,
    pub updated_at: Option<i64>,
    pub keepers: Option<Vec<KeeperOnDetailParkingLot>>,
}

/// The body of a creation request. `file_name` is accepted but has no
/// effect on the stored record.
#[derive(Debug)]
pub struct CreateParkingLotPayload {
    pub area_name: String,
    pub address: String,
    pub file_name: Option<String>,
    pub car_cost: u64,
    pub motor_cost: u64,
    pub owner_id: u128,
}

impl CreateParkingLotPayload {
    /// Builds the record to insert: a fresh server-generated identity and
    /// creation timestamp, the caller's fields, and the fixed placeholder
    /// image URL regardless of `file_name`.
    pub fn into_parking_lot(self) -> (r: ParkingLot)
        ensures
            uuid_version(r.id) == 4,
            r.area_name == self.area_name,
            r.address == self.address,
            r.image_url@ == "some url"@,
            r.car_cost == self.car_cost,
            r.motor_cost == self.motor_cost,
            r.owner_id == self.owner_id,
            r.created_at is Some,
            r.updated_at is None,
    {
        ParkingLot {
            id: fresh::fresh_uuid(),
            area_name: self.area_name,
            address: self.address,
            image_url: "some url".to_owned(),
            car_cost: self.car_cost,
            motor_cost: self.motor_cost,
            owner_id: self.owner_id,
            created_at: Some(fresh::now_micros()),
            updated_at: None,
        }
    }
}

/// The body of an update request: every field optional; an absent field is
/// left unchanged. A present `park_keeper_ids` with at least one entry
/// replaces the keeper associations; an empty list is a no-op.
#[derive(Debug)]
pub struct UpdateParkingLotPayload {
    pub area_name: Option<String>,
    pub address: Option<String>,
    pub file_name: Option<String>,
    pub car_cost: Option<u64>,
    pub motor_cost: Option<u64>,
    pub owner_id: Option<u128>,
    pub park_keeper_ids: Option<Vec<u128>>,
}

impl UpdateParkingLotPayload {
    /// Builds the partial row update: the caller's fields (`file_name`
    /// becomes the image URL), a refreshed update timestamp, and never a
    /// change of identity or creation time.
    pub fn into_update_parking_lot(self) -> (r: UpdateParkingLot)
        ensures
            r.id is None,
            r.area_name == self.area_name,
            r.address == self.address,
            r.image_url == self.file_name,
            r.car_cost == self.car_cost,
            r.motor_cost == self.motor_cost,
            r.owner_id == self.owner_id,
            r.created_at is None,
            r.updated_at is Some,
    {
        UpdateParkingLot {
            id: None,
            area_name: self.area_name,
            address: self.address,
            image_url: self.file_name,
            car_cost: self.car_cost,
            motor_cost: self.motor_cost,
            owner_id: self.owner_id,
            created_at: None,
            updated_at: Some(fresh::now_micros()),
        }
    }
}

} // verus!
