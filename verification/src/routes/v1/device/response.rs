//! The responses of the device API.

use vstd::prelude::*;

verus! {

/// The response of `POST /api/v1/device`.
#[derive(Debug)]
pub struct PostDevice {
    pub data: PostDeviceData,
}

/// The ID of the created device.
#[derive(Debug)]
pub struct PostDeviceData {
    pub device_id: String,
}

/// The response of `GET /api/v1/device/count`.
#[derive(Debug)]
pub struct GetDeviceCount {
    pub data: GetCountData,
}

/// A count.
#[derive(Debug)]
pub struct GetCountData {
    pub count: u64,
}

/// The response of `GET /api/v1/device/list` in the `data` format.
#[derive(Debug)]
pub struct GetDeviceList {
    pub data: Vec<GetDeviceData>,
}

/// The response of `GET /api/v1/device/{deviceId}`.
#[derive(Debug)]
pub struct GetDevice {
    pub data: GetDeviceData,
}

/// A device as the API presents it.
#[derive(Debug)]
pub struct GetDeviceData {
    pub device_id: String,
    pub unit_id: String,
    pub unit_code: Option<String>,
    pub network_id: String,
    pub network_code: String,
    pub network_addr: String,
    pub created_at: String,
    pub modified_at: String,
    pub profile: String,
    pub name: String,
    pub info: Vec<(String, String)>,
}

} // verus!
