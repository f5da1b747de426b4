//! The device side: a minimal request server, the pairing window and the
//! persisted record of identity and confirmed keys.

pub mod keys;
pub mod status;
pub mod timeout;
pub mod headers;
pub mod request;
pub mod response;
pub mod store;
pub mod route;
