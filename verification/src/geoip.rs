//! The GeoIP service: answers Geoclue's Ichnaea requests with the phone's
//! location.

pub mod ichnaea;
pub mod location;
pub mod server;
