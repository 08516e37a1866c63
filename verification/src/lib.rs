//! Backend library for a small home-sensor dashboard: cookie-based session
//! management with absolute timeouts, a fixed-pair credential check, and
//! extraction of a weather snapshot from an upstream JSON body.

pub mod creds;
pub mod front;
pub mod store;
pub mod text;
pub mod weather;
