//! The record that the server, the GPS reader and the clock publish for
//! monitoring.

use crate::packet::NtpTimestamp;
use crate::timebase::{elapsed, spec_elapsed};
use vstd::prelude::*;

verus! {

/// The satellite system that a GSV sentence reports on.
#[derive(Debug, Clone, Copy, PartialEq, Eq, Structural)]
pub enum Constellation {
    Gps,
    Glonass,
    Galileo,
    BeiDou,
    /// Several systems combined.
    Gnss,
}

impl Constellation {
    /// The name shown for the system.
    pub open spec fn spec_name(self) -> Seq<char> {
        match self {
            Constellation::Gps => "GPS"@,
            Constellation::Glonass => "GLONASS"@,
            Constellation::Galileo => "Galileo"@,
            Constellation::BeiDou => "BeiDou"@,
            Constellation::Gnss => "GNSS"@,
        }
    }

    pub fn name(self) -> (r: &'static str)
        ensures
            r@ == self.spec_name(),
    {
        match self {
            Constellation::Gps => "GPS",
            Constellation::Glonass => "GLONASS",
            Constellation::Galileo => "Galileo",
            Constellation::BeiDou => "BeiDou",
            Constellation::Gnss => "GNSS",
        }
    }
}

/// One satellite in view.
#[derive(Debug, Clone, Copy, PartialEq, Eq, Structural)]
pub struct SatelliteInfo {
    /// Satellite number, never zero.
    pub prn: u8,
    /// Elevation in degrees, 0 at the horizon to 90 at the zenith.
    pub elevation: u8,
    /// Azimuth in degrees from north, 0 to 359.
    pub azimuth: u16,
    /// Signal-to-noise ratio in dB-Hz, 0 to 99; 0 without a signal.
    pub snr: u8,
    pub constellation: Constellation,
}

impl SatelliteInfo {
    /// Every field lies in its range.
    pub open spec fn wf(self) -> bool {
        &&& self.prn > 0
        &&& self.elevation <= 90
        &&& self.azimuth <= 359
        &&& self.snr <= 99
    }
}

/// Reference identifier shown before any clock has reported: "INIT".
pub const REFERENCE_INIT: [u8; 4] = [0x49, 0x4E, 0x49, 0x54];

/// Largest signal quality shown.
pub const MAX_SIGNAL_QUALITY: u8 = 10;

/// What the GPS reader publishes. The PPS offset, a fraction of a second,
/// is published beside this record by its owner.
#[derive(Debug, Clone, Copy, PartialEq, Eq, Structural)]
pub struct GpsStats {
    pub connected: bool,
    /// Satellites in use.
    pub satellites: u8,
    /// Signal quality from 0 to 10.
    pub signal_quality: u8,
    /// Seconds between the start of the reader and the last fix.
    pub last_sync_secs: Option<u64>,
    pub nmea_sentences: u64,
    pub pps_active: bool,
    pub pps_count: u64,
    /// Milliseconds since the receiver last sent anything.
    pub last_rx_ms: u64,
}

/// What the NTP server publishes.
#[derive(Debug, Clone, Copy, PartialEq, Eq, Structural)]
pub struct NtpStats {
    pub requests_total: u64,
    pub requests_per_second: u32,
    pub active_clients: usize,
    /// Milliseconds since the last reply; 0 right after one.
    pub last_tx_ms: u64,
}

/// What the clock source reports of itself.
#[derive(Debug, Clone, Copy, PartialEq, Eq)]
pub struct ClockInfo {
    pub stratum: u8,
    pub reference_id: [u8; 4],
    pub precision: i8,
    /// Seconds since the NTP epoch.
    pub current_timestamp: u64,
    /// The fraction of the second, in nanoseconds.
    pub current_fraction_ns: u32,
}

/// The whole record.
#[derive(Debug, Clone)]
pub struct ServerStats {
    pub gps: GpsStats,
    pub ntp: NtpStats,
    pub clock: ClockInfo,
    pub satellites: Vec<SatelliteInfo>,
}

impl GpsStats {
    /// The signal quality shown for a satellite count: the count, at most 10.
    pub open spec fn spec_quality(count: u8) -> u8 {
        if count <= MAX_SIGNAL_QUALITY {
            count
        } else {
            MAX_SIGNAL_QUALITY
        }
    }

    /// Publishes a satellite count and the signal quality that follows
    /// from it.
    pub fn record_satellite_count(&mut self, count: u8)
        ensures
            *final(self) == (GpsStats {
                satellites: count,
                signal_quality: Self::spec_quality(count),
                ..*old(self)
            }),
    {
        self.satellites = count;
        self.signal_quality = if count <= MAX_SIGNAL_QUALITY {
            count
        } else {
            MAX_SIGNAL_QUALITY
        };
    }

    /// Publishes a fix: the number of sentences that carried one so far,
    /// and the reader's age in seconds when this one came.
    pub fn record_fix(&mut self, nmea_sentences: u64, uptime_secs: u64)
        ensures
            *final(self) == (GpsStats {
                nmea_sentences,
                last_sync_secs: Some(uptime_secs),
                ..*old(self)
            }),
    {
        self.nmea_sentences = nmea_sentences;
        self.last_sync_secs = Some(uptime_secs);
    }

    /// Publishes a PPS pulse. A pulse that disciplined the clock also marks
    /// PPS as active.
    pub fn record_pulse(&mut self, pps_count: u64, disciplined: bool)
        ensures
            *final(self) == (GpsStats {
                pps_count,
                pps_active: old(self).pps_active || disciplined,
                ..*old(self)
            }),
    {
        self.pps_count = pps_count;
        if disciplined {
            self.pps_active = true;
        }
    }

    /// Marks the receiver as gone: not connected, PPS not active.
    pub fn record_disconnect(&mut self)
        ensures
            *final(self) == (GpsStats { connected: false, pps_active: false, ..*old(self) }),
    {
        self.connected = false;
        self.pps_active = false;
    }
}

impl ClockInfo {
    /// What a clock reports when it reads `timestamp`.
    pub open spec fn spec_of_reading(
        timestamp: NtpTimestamp,
        stratum: u8,
        reference_id: [u8; 4],
        precision: i8,
    ) -> ClockInfo {
        ClockInfo {
            stratum,
            reference_id,
            precision,
            current_timestamp: timestamp.spec_seconds() as u64,
            current_fraction_ns: timestamp.spec_to_unix().1,
        }
    }

    pub fn of_reading(timestamp: NtpTimestamp, stratum: u8, reference_id: [u8; 4], precision: i8)
        -> (r: Self)
        ensures
            r == Self::spec_of_reading(timestamp, stratum, reference_id, precision),
            r.current_fraction_ns < 1_000_000_000,
    {
        let unix = timestamp.to_unix();
        ClockInfo {
            stratum,
            reference_id,
            precision,
            current_timestamp: timestamp.seconds() as u64,
            current_fraction_ns: unix.1,
        }
    }
}

impl ServerStats {
    /// The record before anything has reported: no receiver, no requests,
    /// stratum 16 with the reference "INIT".
    pub fn new() -> (r: Self)
        ensures
            r.gps == (GpsStats {
                connected: false,
                satellites: 0,
                signal_quality: 0,
                last_sync_secs: None,
                nmea_sentences: 0,
                pps_active: false,
                pps_count: 0,
                last_rx_ms: 0,
            }),
            r.ntp == (NtpStats {
                requests_total: 0,
                requests_per_second: 0,
                active_clients: 0,
                last_tx_ms: 0,
            }),
            r.clock == (ClockInfo {
                stratum: 16,
                reference_id: REFERENCE_INIT,
                precision: (-20) as i8,
                current_timestamp: 0,
                current_fraction_ns: 0,
            }),
            r.satellites@.len() == 0,
    {
        ServerStats {
            gps: GpsStats {
                connected: false,
                satellites: 0,
                signal_quality: 0,
                last_sync_secs: None,
                nmea_sentences: 0,
                pps_active: false,
                pps_count: 0,
                last_rx_ms: 0,
            },
            ntp: NtpStats {
                requests_total: 0,
                requests_per_second: 0,
                active_clients: 0,
                last_tx_ms: 0,
            },
            clock: ClockInfo {
                stratum: 16,
                reference_id: REFERENCE_INIT,
                precision: -20,
                current_timestamp: 0,
                current_fraction_ns: 0,
            },
            satellites: Vec::new(),
        }
    }

    /// Publishes a reply: the number of requests answered so far, and no
    /// time since the last reply.
    pub fn record_reply(&mut self, requests_total: u64, clock: ClockInfo)
        ensures
            final(self).ntp == (NtpStats { requests_total, last_tx_ms: 0, ..old(self).ntp }),
            final(self).clock == clock,
            final(self).gps == old(self).gps,
            final(self).satellites == old(self).satellites,
    {
        self.ntp.requests_total = requests_total;
        self.ntp.last_tx_ms = 0;
        self.clock = clock;
    }
}

/// The present time as the monitoring endpoint shows it.
#[derive(Debug, Clone, Copy, PartialEq, Eq, Structural)]
pub struct RealtimeData {
    /// The whole 64-bit timestamp.
    pub timestamp: u64,
    /// Seconds since the NTP epoch.
    pub seconds: u32,
    /// The fraction, in units of 2^-32 s.
    pub fraction: u32,
    /// The fraction, in nanoseconds.
    pub nanos: u32,
    /// Milliseconds since the Unix epoch; 0 for a time before it.
    pub unix_timestamp_ms: u64,
}

impl RealtimeData {
    /// The fields shown for `timestamp`.
    pub open spec fn spec_of(timestamp: NtpTimestamp) -> RealtimeData {
        let unix = timestamp.spec_to_unix();
        RealtimeData {
            timestamp: timestamp.0,
            seconds: timestamp.spec_seconds(),
            fraction: timestamp.spec_fraction(),
            nanos: unix.1,
            unix_timestamp_ms: if unix.0 >= 0 {
                (unix.0 * 1000 + unix.1 / 1_000_000) as u64
            } else {
                0
            },
        }
    }

    pub fn of(timestamp: NtpTimestamp) -> (r: Self)
        ensures
            r == Self::spec_of(timestamp),
    {
        let unix = timestamp.to_unix();
        let millis: u64 = if unix.0 >= 0 {
            unix.0 as u64 * 1000 + (unix.1 / 1_000_000) as u64
        } else {
            0
        };
        RealtimeData {
            timestamp: timestamp.0,
            seconds: timestamp.seconds(),
            fraction: timestamp.fraction(),
            nanos: unix.1,
            unix_timestamp_ms: millis,
        }
    }
}

/// What the once-a-second bookkeeping remembers between two ticks.
#[derive(Debug, Clone, Copy, PartialEq, Eq, Structural)]
pub struct Bookkeeper {
    /// Requests answered at the last tick.
    pub last_requests: u64,
    /// When the reply timer was last restarted.
    pub last_tx: u128,
}

impl Bookkeeper {
    pub fn new(now: u128) -> (r: Self)
        ensures
            r == (Bookkeeper { last_requests: 0, last_tx: now }),
    {
        Bookkeeper { last_requests: 0, last_tx: now }
    }

    /// Requests answered between two ticks, at most `u32::MAX`.
    pub open spec fn spec_rate(before: u64, processed: u64) -> u32 {
        if processed < before {
            0
        } else if processed - before > u32::MAX {
            u32::MAX
        } else {
            (processed - before) as u32
        }
    }

    /// Whole milliseconds from `earlier` to `later`, at most `u64::MAX`.
    pub open spec fn spec_millis_between(earlier: u128, later: u128) -> u64 {
        let ms = spec_elapsed(earlier, later) / 1_000_000;
        if ms > u64::MAX {
            u64::MAX
        } else {
            ms as u64
        }
    }

    pub fn millis_between(earlier: u128, later: u128) -> (r: u64)
        ensures
            r == Self::spec_millis_between(earlier, later),
    {
        let ms: u128 = elapsed(earlier, later) / 1_000_000;
        if ms > u64::MAX as u128 {
            u64::MAX
        } else {
            ms as u64
        }
    }

    /// One tick at `now`, with `processed` requests answered so far. The
    /// rate becomes the number answered since the last tick. A reply since
    /// the last tick (the time since the last reply stands at 0) restarts
    /// the timer; otherwise the time since the last reply becomes the age
    /// of the timer.
    pub fn tick(&mut self, ntp: &mut NtpStats, processed: u64, now: u128)
        ensures
            final(self).last_requests == processed,
            final(self).last_tx == if old(ntp).last_tx_ms == 0 {
                now
            } else {
                old(self).last_tx
            },
            *final(ntp) == (NtpStats {
                requests_per_second: Self::spec_rate(old(self).last_requests, processed),
                last_tx_ms: if old(ntp).last_tx_ms == 0 {
                    0
                } else {
                    Self::spec_millis_between(old(self).last_tx, now)
                },
                ..*old(ntp)
            }),
    {
        let rate: u32 = if processed < self.last_requests {
            0
        } else if processed - self.last_requests > u32::MAX as u64 {
            u32::MAX
        } else {
            (processed - self.last_requests) as u32
        };
        self.last_requests = processed;
        ntp.requests_per_second = rate;
        if ntp.last_tx_ms == 0 {
            self.last_tx = now;
        } else {
            ntp.last_tx_ms = Self::millis_between(self.last_tx, now);
        }
    }
}

} // verus!
