//! The requests of the device API.

use vstd::prelude::*;

verus! {

/// The path of `/api/v1/device/{deviceId}`.
#[derive(Debug)]
pub struct DeviceIdPath {
    pub device_id: String,
}

/// The body of `POST /api/v1/device`.
#[derive(Debug)]
pub struct PostDeviceBody {
    pub data: PostDeviceData,
}

/// The device to create.
#[derive(Debug)]
pub struct PostDeviceData {
    pub unit_id: String,
    pub network_id: String,
    pub network_addr: String,
    pub profile: Option<String>,
    pub name: Option<String>,
    pub info: Option<Vec<(String, String)>>,
}

/// The body of `POST /api/v1/device/bulk` and `POST /api/v1/device/bulk-delete`.
#[derive(Debug)]
pub struct PostDeviceBulkBody {
    pub data: PostDeviceBulkData,
}

/// The devices to create or delete, by their addresses on one network.
#[derive(Debug)]
pub struct PostDeviceBulkData {
    pub unit_id: String,
    pub network_id: String,
    pub network_addrs: Vec<String>,
    pub profile: Option<String>,
}

/// The body of `POST /api/v1/device/range` and `POST /api/v1/device/range-delete`.
#[derive(Debug)]
pub struct PostDeviceRangeBody {
    pub data: PostDeviceRangeData,
}

/// The devices to create or delete, by a range of hexadecimal addresses on one network.
#[derive(Debug)]
pub struct PostDeviceRangeData {
    pub unit_id: String,
    pub network_id: String,
    pub start_addr: String,
    pub end_addr: String,
    pub profile: Option<String>,
}

/// The query of `GET /api/v1/device/count`.
#[derive(Debug)]
pub struct GetDeviceCountQuery {
    pub unit: Option<String>,
    pub network: Option<String>,
    pub addr: Option<String>,
    pub profile: Option<String>,
    pub contains: Option<String>,
}

/// The query of `GET /api/v1/device/list`.
#[derive(Debug)]
pub struct GetDeviceListQuery {
    pub unit: Option<String>,
    pub network: Option<String>,
    pub addr: Option<String>,
    pub profile: Option<String>,
    pub contains: Option<String>,
    pub offset: Option<u64>,
    pub limit: Option<u64>,
    pub sort: Option<String>,
    pub format: Option<ListFormat>,
}

/// The body of `PATCH /api/v1/device/{deviceId}`.
#[derive(Debug)]
pub struct PatchDeviceBody {
    pub data: PatchDeviceData,
}

/// The fields of a device to change.
#[derive(Debug)]
pub struct PatchDeviceData {
    pub network_id: Option<String>,
    pub network_addr: Option<String>,
    pub profile: Option<String>,
    pub name: Option<String>,
    pub info: Option<Vec<(String, String)>>,
}

/// The format of a list: a bare array, or an object with the array under `data`.
#[derive(PartialEq, Eq, Structural, Clone, Copy, Debug)]
pub enum ListFormat {
    Array,
    Data,
}

} // verus!
