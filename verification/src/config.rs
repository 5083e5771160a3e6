//! The settings that every service reads from `/etc/ha-localizer.toml`.

use vstd::prelude::*;

verus! {

/// The contents of the configuration file: how to reach Home Assistant,
/// which phone to follow, and the port of the GeoIP service.
pub struct Config {
    /// A long-lived access token of Home Assistant.
    pub api_key: String,
    /// The address of Home Assistant, without a trailing slash.
    pub base_url: String,
    /// The Home Assistant id of the phone.
    pub device_id: String,
    /// The local port on which the GeoIP service listens.
    pub port: u16,
}

} // verus!
