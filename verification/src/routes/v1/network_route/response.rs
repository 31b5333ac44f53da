//! The responses of the network route API.

use vstd::prelude::*;

verus! {

/// The response of `POST /api/v1/network-route`.
#[derive(Debug)]
pub struct PostNetworkRoute {
    pub data: PostNetworkRouteData,
}

/// The ID of the created route.
#[derive(Debug)]
pub struct PostNetworkRouteData {
    pub route_id: String,
}

/// The response of `GET /api/v1/network-route/count`.
#[derive(Debug)]
pub struct GetNetworkRouteCount {
    pub data: GetCountData,
}

/// A count.
#[derive(Debug)]
pub struct GetCountData {
    pub count: u64,
}

/// The response of `GET /api/v1/network-route/list` in the `data` format.
#[derive(Debug)]
pub struct GetNetworkRouteList {
    pub data: Vec<GetNetworkRouteData>,
}

/// A network route as the API presents it.
#[derive(Debug)]
pub struct GetNetworkRouteData {
    pub route_id: String,
    pub unit_id: String,
    pub application_id: String,
    pub application_code: String,
    pub network_id: String,
    pub network_code: String,
    pub created_at: String,
}

} // verus!
