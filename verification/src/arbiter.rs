//! The arbiter: device registry, access-control list and token mint.
pub mod acl;
pub mod config;
pub mod request;
pub mod request_handler;
pub mod state;
