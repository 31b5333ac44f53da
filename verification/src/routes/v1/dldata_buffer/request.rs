//! The requests of the downlink data buffer API.

use vstd::prelude::*;

verus! {

/// The path of `/api/v1/dldata-buffer/{dataId}`.
#[derive(Debug)]
pub struct DataIdPath {
    pub data_id: String,
}

/// The query of `GET /api/v1/dldata-buffer/count`.
#[derive(Debug)]
pub struct GetDlDataBufferCountQuery {
    pub unit: Option<String>,
    pub application: Option<String>,
    pub network: Option<String>,
    pub device: Option<String>,
}

/// The query of `GET /api/v1/dldata-buffer/list`.
#[derive(Debug)]
pub struct GetDlDataBufferListQuery {
    pub unit: Option<String>,
    pub application: Option<String>,
    pub network: Option<String>,
    pub device: Option<String>,
    pub offset: Option<u64>,
    pub limit: Option<u64>,
    pub sort: Option<String>,
    pub format: Option<ListFormat>,
}

/// The format of a list: a bare array, or an object with the array under `data`.
#[derive(PartialEq, Eq, Structural, Clone, Copy, Debug)]
pub enum ListFormat {
    Array,
    Data,
}

} // verus!
