//! The responses of the downlink data buffer API.

use vstd::prelude::*;

verus! {

/// The response of `GET /api/v1/dldata-buffer/count`.
#[derive(Debug)]
pub struct GetDlDataBufferCount {
    pub data: GetCountData,
}

/// A count.
#[derive(Debug)]
pub struct GetCountData {
    pub count: u64,
}

/// The response of `GET /api/v1/dldata-buffer/list` in the `data` format.
#[derive(Debug)]
pub struct GetDlDataBufferList {
    pub data: Vec<GetDlDataBufferData>,
}

/// A buffered downlink data item as the API presents it.
#[derive(Debug)]
pub struct GetDlDataBufferData {
    pub data_id: String,
    pub unit_id: String,
    pub application_id: String,
    pub application_code: String,
    pub device_id: String,
    pub network_id: String,
    pub network_addr: String,
    pub created_at: String,
    pub expired_at: String,
}

} // verus!
