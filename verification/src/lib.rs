//! Relays the location and time zone of a phone, as Home Assistant reports
//! them, to the services of a Linux machine: Geoclue's Ichnaea interface,
//! an NMEA socket, and `/etc/localtime`.
//!
//! This crate holds the verified part: the requests it makes of Home
//! Assistant, the HTTP replies and NMEA sentences it writes, and the
//! decisions of the time zone synchronisation. Sockets, files and the HTTP
//! client itself live in the program around it.

pub mod config;
pub mod geoip;
pub mod home_assistant;
pub mod http;
pub mod nmea;
pub mod text;
pub mod timezone;
