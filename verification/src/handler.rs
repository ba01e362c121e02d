//! The decision logic of the four operations on the parking-lot resource.
//!
//! Each function here is pure: the outcomes of the persistence calls a
//! handler depends on (a user lookup, the join rows of a detail query, a
//! file-existence check) come in as arguments, and what the operation
//! decides — the rejection, the record to insert, the plan to carry out —
//! goes out as the result. The HTTP layer performs the calls and carries
//! out the plans; nothing here touches the store itself.

use vstd::prelude::*;

use crate::error::Error;
use crate::error::image_missing_message;
use crate::error::owner_role_message;
use crate::fresh::uuid_version;
use crate::model::CreateParkingLotPayload;
use crate::model::DetailParkingLot;
use crate::model::KeeperOnDetailParkingLot;
use crate::model::ParkingLot;
use crate::model::ParkingLotDetailRow;
use crate::model::ParkingLotWithCountOfKeeper;
use crate::model::Role;
use crate::model::UpdateParkingLot;
use crate::model::UpdateParkingLotPayload;
use crate::model::User;

verus! {

/// Whether the outcome of the optional owner lookup lets an update
/// proceed: no lookup was needed, or it found a user with the owner role.
pub open spec fn owner_outcome_accepted(owner: Option<Result<User, Error>>) -> bool {
    match owner {
        None => true,
        Some(Ok(u)) => u.role == Role::ParkOwner,
        Some(Err(_)) => false,
    }
}

/// Decides the creation of a parking lot. `owner` is the outcome of looking
/// up `payload.owner_id` in the user store. On success the result is the
/// record to insert; on failure nothing is to be inserted.
pub fn create(payload: CreateParkingLotPayload, owner: Result<User, Error>) -> (r: Result<
    ParkingLot,
    Error,
>)
    ensures
        owner matches Err(e) ==> (r matches Err(f) && f == e),
        (owner matches Ok(u) && u.role != Role::ParkOwner) ==> (r matches Err(f) && f matches
            Error::BadRequest(m) && m@ == owner_role_message()),
        (owner matches Ok(u) && u.role == Role::ParkOwner) ==> (r matches Ok(lot) && {
            &&& uuid_version(lot.id) == 4
            &&& lot.area_name == payload.area_name
            &&& lot.address == payload.address
            &&& lot.image_url@ == "some url"@
            &&& lot.car_cost == payload.car_cost
            &&& lot.motor_cost == payload.motor_cost
            &&& lot.owner_id == payload.owner_id
            &&& lot.created_at is Some
            &&& lot.updated_at is None
        }),
{
    let user = match owner {
        Ok(u) => u,
        Err(e) => {
            return Err(e);
        },
    };
    if user.role != Role::ParkOwner {
        return Err(Error::owner_role_rejection());
    }
    Ok(payload.into_parking_lot())
}

/// What an update decides to do to the store. If `keeper_replacement` is
/// `Some(ids)`, every existing keeper association of the lot is to be
/// removed and `ids` associated in its place; if it is `None`, the
/// associations are to stay untouched. `changes` is the partial row update
/// to apply afterwards.
#[derive(Debug)]
pub struct UpdatePlan {
    pub keeper_replacement: Option<Vec<u128>>,
    pub changes: UpdateParkingLot,
}

/// Decides the update of the lot identified by the request path. `owner`
/// is the outcome of looking up `payload.owner_id`, made exactly when that
/// field is present; `file_exists` says whether a file named
/// `payload.file_name` exists in the files directory, checked exactly when
/// that field is present. On failure nothing is to be written; a present
/// but empty `park_keeper_ids` leaves the associations untouched.
pub fn update(
    payload: UpdateParkingLotPayload,
    owner: Option<Result<User, Error>>,
    file_exists: Option<bool>,
) -> (r: Result<UpdatePlan, Error>)
    requires
        owner is Some <==> payload.owner_id is Some,
        file_exists is Some <==> payload.file_name is Some,
    ensures
        owner matches Some(Err(e)) ==> (r matches Err(f) && f == e),
        (owner matches Some(Ok(u)) && u.role != Role::ParkOwner) ==> (r matches Err(f) && f matches
            Error::BadRequest(m) && m@ == owner_role_message()),
        (owner_outcome_accepted(owner) && file_exists == Some(false)) ==> (r matches Err(f)
            && f matches Error::BadRequest(m) && m@ == image_missing_message()),
        (owner_outcome_accepted(owner) && file_exists != Some(false)) ==> (r matches Ok(plan) && {
            &&& payload.park_keeper_ids matches Some(ids) ==> {
                &&& ids@.len() > 0 ==> (plan.keeper_replacement matches Some(new_ids) && new_ids@
                    == ids@)
                &&& ids@.len() == 0 ==> plan.keeper_replacement is None
            }
            &&& payload.park_keeper_ids is None ==> plan.keeper_replacement is None
            &&& plan.changes.id is None
            &&& plan.changes.area_name == payload.area_name
            &&& plan.changes.address == payload.address
            &&& plan.changes.image_url == payload.file_name
            &&& plan.changes.car_cost == payload.car_cost
            &&& plan.changes.motor_cost == payload.motor_cost
            &&& plan.changes.owner_id == payload.owner_id
            &&& plan.changes.created_at is None
            &&& plan.changes.updated_at is Some
        }),
{
    match owner {
        Some(Err(e)) => {
            return Err(e);
        },
        Some(Ok(u)) => {
            if u.role != Role::ParkOwner {
                return Err(Error::owner_role_rejection());
            }
        },
        None => {},
    }
    match file_exists {
        Some(false) => {
            return Err(Error::image_missing_rejection());
        },
        _ => {},
    }
    let keeper_replacement = match &payload.park_keeper_ids {
        Some(ids) => {
            if ids.len() > 0 {
                Some(clone_ids(ids))
            } else {
                None
            }
        },
        None => None,
    };
    Ok(UpdatePlan { keeper_replacement, changes: payload.into_update_parking_lot() })
}

/// Copies a list of identifiers.
fn clone_ids(ids: &Vec<u128>) -> (r: Vec<u128>)
    ensures
        r@ == ids@,
{
    let mut r: Vec<u128> = Vec::new();
    let mut i: usize = 0;
    while i < ids.len()
        invariant
            i <= ids@.len(),
            r@ == ids@.subrange(0, i as int),
        decreases ids@.len() - i,
    {
        r.push(ids[i]);
        proof {
            assert(ids@.subrange(0, i as int + 1) =~= ids@.subrange(0, i as int).push(
                ids@[i as int],
            ));
        }
        i += 1;
    }
    proof {
        assert(ids@.subrange(0, ids@.len() as int) =~= ids@);
    }
    r
}

/// Whether a join row carries a keeper: both its keeper columns are present.
pub open spec fn is_keeper_row(row: ParkingLotDetailRow) -> bool {
    row.keeper_id is Some && row.keeper_name is Some
}

/// The keeper entries of a detail response: one per join row that carries
/// a keeper, in row order.
pub open spec fn keepers_of(rows: Seq<ParkingLotDetailRow>) -> Seq<KeeperOnDetailParkingLot>
    decreases rows.len(),
{
    if rows.len() == 0 {
        Seq::empty()
    } else {
        let prefix = keepers_of(rows.drop_last());
        let row = rows.last();
        if is_keeper_row(row) {
            prefix.push(KeeperOnDetailParkingLot { id: row.keeper_id, name: row.keeper_name })
        } else {
            prefix
        }
    }
}

/// Folds the rows of the detail join into one response. The scalar fields
/// come from the last row (every row carries the same lot columns by join
/// construction); the keepers list collects every row whose keeper columns
/// are both present. No rows at all — the lot does not exist — gives a
/// response with every scalar field absent and an empty keepers list, not
/// an error.
pub fn detail(rows: Vec<ParkingLotDetailRow>) -> (r: DetailParkingLot)
    ensures
        r.keepers matches Some(ks) && ks@ == keepers_of(rows@),
        rows@.len() == 0 ==> {
            &&& r.id is None
            &&& r.area_name is None
            &&& r.address is None
            &&& r.image_url is None
            &&& r.car_cost is None
            &&& r.motor_cost is None
            &&& r.owner_id is None
            &&& r.created_at is None
            &&& r.updated_at is None
        },
        rows@.len() > 0 ==> {
            &&& r.id == Some(rows@.last().id)
            &&& r.area_name == Some(rows@.last().area_name)
            &&& r.address == Some(rows@.last().address)
            &&& r.image_url == Some(rows@.last().image_url)
            &&& r.car_cost == Some(rows@.last().car_cost)
            &&& r.motor_cost == Some(rows@.last().motor_cost)
            &&& r.owner_id == Some(rows@.last().owner_id)
            &&& r.created_at == rows@.last().created_at
            &&& r.updated_at == rows@.last().updated_at
        },
{
    let mut keepers: Vec<KeeperOnDetailParkingLot> = Vec::new();
    let n = rows.len();
    let mut i: usize = 0;
    while i < n
        invariant
            i <= n,
            n == rows@.len(),
            keepers@ == keepers_of(rows@.subrange(0, i as int)),
        decreases n - i,
    {
        let row = &rows[i];
        proof {
            assert(rows@.subrange(0, i as int + 1).drop_last() =~= rows@.subrange(0, i as int));
            assert(rows@.subrange(0, i as int + 1).last() == rows@[i as int]);
        }
        match (&row.keeper_id, &row.keeper_name) {
            (Some(kid), Some(kname)) => {
                keepers.push(KeeperOnDetailParkingLot { id: Some(*kid), name: Some(kname.clone()) });
            },
            _ => {},
        }
        i += 1;
    }
    proof {
        assert(rows@.subrange(0, rows@.len() as int) =~= rows@);
    }
    if n == 0 {
        DetailParkingLot {
            id: None,
            area_name: None,
            address: None,
            image_url: None,
            car_cost: None,
            motor_cost: None,
            owner_id: None,
            created_at: None,
            updated_at: None,
            keepers: Some(keepers),
        }
    } else {
        let last = &rows[n - 1];
        DetailParkingLot {
            id: Some(last.id),
            area_name: Some(last.area_name.clone()),
            address: Some(last.address.clone()),
            image_url: Some(last.image_url.clone()),
            car_cost: Some(last.car_cost),
            motor_cost: Some(last.motor_cost),
            owner_id: Some(last.owner_id),
            created_at: last.created_at,
            updated_at: last.updated_at,
            keepers: Some(keepers),
        }
    }
}

/// The list-by-owner operation passes the outcome of the owner query
/// through unchanged: an owner with no parking lots yields the store's
/// empty list as a success, never an error.
pub fn get_by_owner(lots: Result<Vec<ParkingLotWithCountOfKeeper>, Error>) -> (r: Result<
    Vec<ParkingLotWithCountOfKeeper>,
    Error,
>)
    ensures
        r == lots,
{
    lots
}

} // verus!
