pub mod arbiter;
pub mod base64url;
pub mod cid;
pub mod clock;
pub mod coap;
pub mod controller;
pub mod device;
pub mod json;
pub mod logging;
pub mod text;
pub mod token;
