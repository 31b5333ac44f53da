//! The requests of the device route API.

use vstd::prelude::*;

verus! {

/// The path of `/api/v1/device-route/{routeId}`.
#[derive(Debug)]
pub struct RouteIdPath {
    pub route_id: String,
}

/// The body of `POST /api/v1/device-route`.
#[derive(Debug)]
pub struct PostDeviceRouteBody {
    pub data: PostDeviceRouteData,
}

/// The route to create, from a device to an application.
#[derive(Debug)]
pub struct PostDeviceRouteData {
    pub device_id: String,
    pub application_id: String,
}

/// The body of `POST /api/v1/device-route/bulk` and `POST /api/v1/device-route/bulk-delete`.
#[derive(Debug)]
pub struct PostDeviceRouteBulkBody {
    pub data: PostDeviceRouteBulkData,
}

/// The routes to create or delete, from the devices at addresses of one network to an
/// application.
#[derive(Debug)]
pub struct PostDeviceRouteBulkData {
    pub application_id: String,
    pub network_id: String,
    pub network_addrs: Vec<String>,
}

/// The body of `POST /api/v1/device-route/range` and
/// `POST /api/v1/device-route/range-delete`.
#[derive(Debug)]
pub struct PostDeviceRouteRangeBody {
    pub data: PostDeviceRouteRangeData,
}

/// The routes to create or delete, from the devices at a range of addresses of one network
/// to an application.
#[derive(Debug)]
pub struct PostDeviceRouteRangeData {
    pub application_id: String,
    pub network_id: String,
    pub start_addr: String,
    pub end_addr: String,
}

/// The query of `GET /api/v1/device-route/count`.
#[derive(Debug)]
pub struct GetDeviceRouteCountQuery {
    pub unit: Option<String>,
    pub application: Option<String>,
    pub network: Option<String>,
    pub device: Option<String>,
}

/// The query of `GET /api/v1/device-route/list`.
#[derive(Debug)]
pub struct GetDeviceRouteListQuery {
    pub unit: Option<String>,
    pub application: Option<String>,
    pub network: Option<String>,
    pub device: Option<String>,
    pub offset: Option<u64>,
    pub limit: Option<u64>,
    pub sort: Option<String>,
    pub format: Option<ListFormat>,
}

/// The format of a list: a bare array, or an object with the array under `data`.
#[derive(PartialEq, Eq, Structural, Clone, Copy, Debug)]
pub enum ListFormat {
    Array,
    Data,
}

} // verus!
