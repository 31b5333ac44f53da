//! The v1 API.

pub mod addr;
pub mod application;
pub mod device;
pub mod device_route;
pub mod dldata_buffer;
pub mod lib;
pub mod list;
pub mod managers;
pub mod network;
pub mod network_route;
pub mod unit;
pub mod valid;
