//! The requests of the network route API.

use vstd::prelude::*;

verus! {

/// The path of `/api/v1/network-route/{routeId}`.
#[derive(Debug)]
pub struct RouteIdPath {
    pub route_id: String,
}

/// The body of `POST /api/v1/network-route`.
#[derive(Debug)]
pub struct PostNetworkRouteBody {
    pub data: PostNetworkRouteData,
}

/// The route to create, from all devices of a network to an application.
#[derive(Debug)]
pub struct PostNetworkRouteData {
    pub network_id: String,
    pub application_id: String,
}

/// The query of `GET /api/v1/network-route/count`.
#[derive(Debug)]
pub struct GetNetworkRouteCountQuery {
    pub unit: Option<String>,
    pub application: Option<String>,
    pub network: Option<String>,
}

/// The query of `GET /api/v1/network-route/list`.
#[derive(Debug)]
pub struct GetNetworkRouteListQuery {
    pub unit: Option<String>,
    pub application: Option<String>,
    pub network: Option<String>,
    pub offset: Option<u64>,
    pub limit: Option<u64>,
    pub sort: Option<String>,
    pub format: Option<ListFormat>,
}

/// The format of a list: a bare array, or an object with the array under `data`.
#[derive(PartialEq, Eq, Structural, Clone, Copy, Debug)]
pub enum ListFormat {
    Array,
    Data,
}

} // verus!
