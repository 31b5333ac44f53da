//! The requests of the application API.

use vstd::prelude::*;

verus! {

/// The path of `/api/v1/application/{applicationId}`.
#[derive(Debug)]
pub struct ApplicationIdPath {
    pub application_id: String,
}

/// The body of `POST /api/v1/application`.
#[derive(Debug)]
pub struct PostApplicationBody {
    pub data: PostApplicationData,
}

/// The application to create.
#[derive(Debug)]
pub struct PostApplicationData {
    pub code: String,
    pub unit_id: String,
    pub host_uri: String,
    pub name: Option<String>,
    pub info: Option<Vec<(String, String)>>,
}

/// The query of `GET /api/v1/application/count`.
#[derive(Debug)]
pub struct GetApplicationCountQuery {
    pub unit: Option<String>,
    pub contains: Option<String>,
}

/// The query of `GET /api/v1/application/list`.
#[derive(Debug)]
pub struct GetApplicationListQuery {
    pub unit: Option<String>,
    pub contains: Option<String>,
    pub offset: Option<u64>,
    pub limit: Option<u64>,
    pub sort: Option<String>,
    pub format: Option<ListFormat>,
}

/// The body of `PATCH /api/v1/application/{applicationId}`.
#[derive(Debug)]
pub struct PatchApplicationBody {
    pub data: PatchApplicationData,
}

/// The fields of an application to change.
#[derive(Debug)]
pub struct PatchApplicationData {
    pub host_uri: Option<String>,
    pub name: Option<String>,
    pub info: Option<Vec<(String, String)>>,
}

/// The format of a list: a bare array, or an object with the array under `data`.
#[derive(PartialEq, Eq, Structural, Clone, Copy, Debug)]
pub enum ListFormat {
    Array,
    Data,
}

} // verus!
