//! The responses of the network API.

use vstd::prelude::*;

verus! {

/// The response of `POST /api/v1/network`.
#[derive(Debug)]
pub struct PostNetwork {
    pub data: PostNetworkData,
}

/// The ID of the created network.
#[derive(Debug)]
pub struct PostNetworkData {
    pub network_id: String,
}

/// The response of `GET /api/v1/network/count`.
#[derive(Debug)]
pub struct GetNetworkCount {
    pub data: GetCountData,
}

/// A count.
#[derive(Debug)]
pub struct GetCountData {
    pub count: u64,
}

/// The response of `GET /api/v1/network/list` in the `data` format.
#[derive(Debug)]
pub struct GetNetworkList {
    pub data: Vec<GetNetworkData>,
}

/// The response of `GET /api/v1/network/{applicationId}`.
#[derive(Debug)]
pub struct GetNetwork {
    pub data: GetNetworkData,
}

/// A network as the API presents it.
#[derive(Debug)]
pub struct GetNetworkData {
    pub network_id: String,
    pub code: String,
    pub unit_id: Option<String>,
    pub unit_code: Option<String>,
    pub created_at: String,
    pub modified_at: String,
    pub host_uri: String,
    pub name: String,
    pub info: Vec<(String, String)>,
}

} // verus!
