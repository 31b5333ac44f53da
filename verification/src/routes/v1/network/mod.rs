//! The network API: `/api/v1/network`.

pub mod api;
pub mod request;
pub mod response;
