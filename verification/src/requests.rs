//! USB standard requests and descriptors.
pub mod descriptor;
pub mod endpoint;
pub mod laws;
pub mod request_type;
pub mod setup;
