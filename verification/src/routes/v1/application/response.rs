//! The responses of the application API.

use vstd::prelude::*;

verus! {

/// The response of `POST /api/v1/application`.
#[derive(Debug)]
pub struct PostApplication {
    pub data: PostApplicationData,
}

/// The ID of the created application.
#[derive(Debug)]
pub struct PostApplicationData {
    pub application_id: String,
}

/// The response of `GET /api/v1/application/count`.
#[derive(Debug)]
pub struct GetApplicationCount {
    pub data: GetCountData,
}

/// A count.
#[derive(Debug)]
pub struct GetCountData {
    pub count: u64,
}

/// The response of `GET /api/v1/application/list` in the `data` format.
#[derive(Debug)]
pub struct GetApplicationList {
    pub data: Vec<GetApplicationData>,
}

/// The response of `GET /api/v1/application/{applicationId}`.
#[derive(Debug)]
pub struct GetApplication {
    pub data: GetApplicationData,
}

/// An application as the API presents it.
#[derive(Debug)]
pub struct GetApplicationData {
    pub application_id: String,
    pub code: String,
    pub unit_id: String,
    pub unit_code: String,
    pub created_at: String,
    pub modified_at: String,
    pub host_uri: String,
    pub name: String,
    pub info: Vec<(String, String)>,
}

} // verus!
