//! The requests of the network API.

use vstd::prelude::*;

verus! {

/// The path of `/api/v1/network/{networkId}`.
#[derive(Debug)]
pub struct NetworkIdPath {
    pub network_id: String,
}

/// The body of `POST /api/v1/network`.
#[derive(Debug)]
pub struct PostNetworkBody {
    pub data: PostNetworkData,
}

/// The network to create.
#[derive(Debug)]
pub struct PostNetworkData {
    pub code: String,
    /// The unit of the network; none for a public network.
    pub unit_id: Option<String>,
    pub host_uri: String,
    pub name: Option<String>,
    pub info: Option<Vec<(String, String)>>,
}

/// The query of `GET /api/v1/network/count`.
#[derive(Debug)]
pub struct GetNetworkCountQuery {
    /// The unit filter; empty for public networks.
    pub unit: Option<String>,
    /// The exact code filter, which takes the place of `contains`.
    pub code: Option<String>,
    pub contains: Option<String>,
}

/// The query of `GET /api/v1/network/list`.
#[derive(Debug)]
pub struct GetNetworkListQuery {
    /// The unit filter; empty for public networks.
    pub unit: Option<String>,
    /// The exact code filter, which takes the place of `contains`.
    pub code: Option<String>,
    pub contains: Option<String>,
    pub offset: Option<u64>,
    pub limit: Option<u64>,
    pub sort: Option<String>,
    pub format: Option<ListFormat>,
}

/// The body of `PATCH /api/v1/network/{networkId}`.
#[derive(Debug)]
pub struct PatchNetworkBody {
    pub data: PatchNetworkData,
}

/// The fields of a network to change.
#[derive(Debug)]
pub struct PatchNetworkData {
    pub host_uri: Option<String>,
    pub name: Option<String>,
    pub info: Option<Vec<(String, String)>>,
}

/// The format of a list: a bare array, or an object with the array under `data`.
#[derive(PartialEq, Eq, Structural, Clone, Copy, Debug)]
pub enum ListFormat {
    Array,
    Data,
}

} // verus!
