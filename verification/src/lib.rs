//! A verified IP-geolocation service core: a bounded least-recently-used
//! cache of looked-up records, a generation tag that keeps cached answers
//! consistent across database snapshots, and the refresh protocol that
//! replaces the on-disk database without disturbing concurrent lookups.

pub mod ip;
pub mod record;
pub mod cache;
pub mod refresh;
pub mod geolocator;
pub mod service;
