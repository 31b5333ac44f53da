//! The responses of the unit API.

use vstd::prelude::*;

verus! {

/// The response of `POST /api/v1/unit`.
#[derive(Debug)]
pub struct PostUnit {
    pub data: PostUnitData,
}

/// The ID of the created unit.
#[derive(Debug)]
pub struct PostUnitData {
    pub unit_id: String,
}

/// The response of `GET /api/v1/unit/count`.
#[derive(Debug)]
pub struct GetUnitCount {
    pub data: GetCountData,
}

/// A count.
#[derive(Debug)]
pub struct GetCountData {
    pub count: u64,
}

/// The response of `GET /api/v1/unit/list` in the `data` format.
#[derive(Debug)]
pub struct GetUnitList {
    pub data: Vec<GetUnitData>,
}

/// The response of `GET /api/v1/unit/{unitId}`.
#[derive(Debug)]
pub struct GetUnit {
    pub data: GetUnitData,
}

/// A unit as the API presents it.
#[derive(Debug)]
pub struct GetUnitData {
    pub unit_id: String,
    pub code: String,
    pub created_at: String,
    pub modified_at: String,
    pub owner_id: String,
    pub member_ids: Vec<String>,
    pub name: String,
    pub info: Vec<(String, String)>,
}

} // verus!
