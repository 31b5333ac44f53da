//! The requests of the unit API.

use vstd::prelude::*;

verus! {

/// The path of `/api/v1/unit/{unitId}`.
#[derive(Debug)]
pub struct UnitIdPath {
    pub unit_id: String,
}

/// The path of `/api/v1/unit/user/{userId}`.
#[derive(Debug)]
pub struct UserIdPath {
    pub user_id: String,
}

/// The body of `POST /api/v1/unit`.
#[derive(Debug)]
pub struct PostUnitBody {
    pub data: PostUnitData,
}

/// The unit to create.
#[derive(Debug)]
pub struct PostUnitData {
    pub code: String,
    pub owner_id: Option<String>,
    pub name: Option<String>,
    pub info: Option<Vec<(String, String)>>,
}

/// The query of `GET /api/v1/unit/count`.
#[derive(Debug)]
pub struct GetUnitCountQuery {
    pub owner: Option<String>,
    pub member: Option<String>,
    pub contains: Option<String>,
}

/// The query of `GET /api/v1/unit/list`.
#[derive(Debug)]
pub struct GetUnitListQuery {
    pub owner: Option<String>,
    pub member: Option<String>,
    pub contains: Option<String>,
    pub offset: Option<u64>,
    pub limit: Option<u64>,
    pub sort: Option<String>,
    pub format: Option<ListFormat>,
}

/// The body of `PATCH /api/v1/unit/{unitId}`.
#[derive(Debug)]
pub struct PatchUnitBody {
    pub data: PatchUnitData,
}

/// The fields of a unit to change.
#[derive(Debug)]
pub struct PatchUnitData {
    pub owner_id: Option<String>,
    pub member_ids: Option<Vec<String>>,
    pub name: Option<String>,
    pub info: Option<Vec<(String, String)>>,
}

/// The format of a list: a bare array, or an object with the array under `data`.
#[derive(PartialEq, Eq, Structural, Clone, Copy, Debug)]
pub enum ListFormat {
    Array,
    Data,
}

} // verus!
