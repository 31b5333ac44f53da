//! The application API: `/api/v1/application`.

pub mod api;
pub mod request;
pub mod response;
