//! The responses of the device route API.

use vstd::prelude::*;

verus! {

/// The response of `POST /api/v1/device-route`.
#[derive(Debug)]
pub struct PostDeviceRoute {
    pub data: PostDeviceRouteData,
}

/// The ID of the created route.
#[derive(Debug)]
pub struct PostDeviceRouteData {
    pub route_id: String,
}

/// The response of `GET /api/v1/device-route/count`.
#[derive(Debug)]
pub struct GetDeviceRouteCount {
    pub data: GetCountData,
}

/// A count.
#[derive(Debug)]
pub struct GetCountData {
    pub count: u64,
}

/// The response of `GET /api/v1/device-route/list` in the `data` format.
#[derive(Debug)]
pub struct GetDeviceRouteList {
    pub data: Vec<GetDeviceRouteData>,
}

/// A device route as the API presents it.
#[derive(Debug)]
pub struct GetDeviceRouteData {
    pub route_id: String,
    pub unit_id: String,
    pub application_id: String,
    pub application_code: String,
    pub device_id: String,
    pub network_id: String,
    pub network_code: String,
    pub network_addr: String,
    pub profile: String,
    pub created_at: String,
    pub modified_at: String,
}

} // verus!
