//! Core of a GPS-disciplined stratum-1 NTP server: the wire codec, the
//! clock sources and their fusion rules, admission control, the NMEA
//! reader's state machine and the request pipeline.

pub mod packet;
pub mod timebase;
pub mod clock;
pub mod security;
pub mod stats;
pub mod nmea;
pub mod config;
pub mod gps_reader;
pub mod server;
