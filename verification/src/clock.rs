//! Clock sources: the system clock, and the GPS-disciplined clock that
//! chooses between a PPS-corrected reading, a time extrapolated from the
//! last NMEA fix, and the system clock.
//!
//! Every rule is stated as a function of the clock's state and of explicit
//! readings of the host's clocks (`*_at`). The methods that read the
//! clocks themselves apply those functions to whatever the host returned.

use crate::packet::NtpTimestamp;
use crate::timebase::{elapsed, spec_elapsed, unix_time_now, valid_unix_reading, Monotonic};
use vstd::prelude::*;

verus! {

/// Reference identifier of a GPS-locked primary server: "GPS" and a NUL.
pub const REFERENCE_GPS: [u8; 4] = [0x47, 0x50, 0x53, 0x00];

/// Reference identifier of an unsynchronised local clock: "LOCL".
pub const REFERENCE_LOCAL: [u8; 4] = [0x4C, 0x4F, 0x43, 0x4C];

/// Stratum of a primary reference.
pub const STRATUM_PRIMARY: u8 = 1;

/// Stratum that marks a clock as unsynchronised.
pub const STRATUM_UNSYNCHRONIZED: u8 = 16;

/// Precision advertised while GPS-locked: 2^-20 s, about a microsecond.
pub const PRECISION_GPS: i8 = -20;

/// Precision advertised for the system clock: 2^-24 s, about 60 ns.
pub const PRECISION_SYSTEM: i8 = -24;

/// A PPS offset older than this many seconds is no longer applied.
pub const PPS_MAX_AGE_SECS: u128 = 5;

/// Fewest satellites with which a fix counts as synchronised.
pub const MIN_SYNC_SATELLITES: u8 = 3;

/// What a source of time offers to the server. Each clock says, by the
/// four spec functions, which answers it may give; each method gives one
/// of them. A clock that says nothing may give any answer.
pub trait ClockSource: Send + Sync {
    /// Whether the clock may give `time` as the present time.
    open spec fn tells_time(&self, time: NtpTimestamp) -> bool {
        true
    }

    /// Whether the clock may name its reference by `reference_id`.
    open spec fn tells_reference(&self, reference_id: [u8; 4]) -> bool {
        true
    }

    /// Whether the clock may report `stratum`.
    open spec fn tells_stratum(&self, stratum: u8) -> bool {
        true
    }

    /// Whether the clock may report `precision`.
    open spec fn tells_precision(&self, precision: i8) -> bool {
        true
    }

    /// The present time.
    fn now(&self) -> (r: NtpTimestamp)
        ensures
            self.tells_time(r),
    ;

    /// The four octets that name the reference.
    fn reference_id(&self) -> (r: [u8; 4])
        ensures
            self.tells_reference(r),
    ;

    /// The stratum: 1 for a primary reference, 16 when unsynchronised.
    fn stratum(&self) -> (r: u8)
        ensures
            self.tells_stratum(r),
    ;

    /// The precision in log2 seconds.
    fn precision(&self) -> (r: i8)
        ensures
            self.tells_precision(r),
    ;
}

/// The host's wall clock.
#[derive(Debug, Clone, Copy)]
pub struct SystemClock;

impl SystemClock {
    pub fn new() -> (r: Self)
        ensures
            r == SystemClock,
    {
        SystemClock
    }

    /// The NTP time of a reading of the wall clock, itself given as seconds
    /// and nanoseconds since the Unix epoch. Without a reading the
    /// timestamp is unset.
    pub open spec fn spec_timestamp_of(reading: Option<(u64, u32)>) -> NtpTimestamp {
        match reading {
            Some((secs, nanos)) => NtpTimestamp::spec_from_unix(secs, nanos),
            None => NtpTimestamp(0),
        }
    }

    pub fn timestamp_of(reading: Option<(u64, u32)>) -> (r: NtpTimestamp)
        ensures
            r == Self::spec_timestamp_of(reading),
    {
        match reading {
            Some((secs, nanos)) => NtpTimestamp::from_unix(secs, nanos),
            None => NtpTimestamp(0),
        }
    }

    /// Reads the wall clock at the finest grain the platform offers, as
    /// seconds and nanoseconds since the Unix epoch. `None` when the clock
    /// stands before that epoch.
    pub fn get_precise_time() -> (r: Option<(u64, u32)>)
        ensures
            valid_unix_reading(r),
    {
        Self::fallback_time()
    }

    /// Reads the wall clock through the standard library.
    pub fn fallback_time() -> (r: Option<(u64, u32)>)
        ensures
            valid_unix_reading(r),
    {
        unix_time_now()
    }
}

impl Default for SystemClock {
    fn default() -> (r: Self)
        ensures
            r == SystemClock,
    {
        SystemClock
    }
}

impl ClockSource for SystemClock {
    /// The NTP time of some reading of the wall clock.
    open spec fn tells_time(&self, time: NtpTimestamp) -> bool {
        exists|reading: Option<(u64, u32)>|
            valid_unix_reading(reading) && time == #[trigger] SystemClock::spec_timestamp_of(
                reading,
            )
    }

    open spec fn tells_reference(&self, reference_id: [u8; 4]) -> bool {
        reference_id == REFERENCE_LOCAL
    }

    open spec fn tells_stratum(&self, stratum: u8) -> bool {
        stratum == STRATUM_UNSYNCHRONIZED
    }

    open spec fn tells_precision(&self, precision: i8) -> bool {
        precision == PRECISION_SYSTEM
    }

    /// The wall clock as an NTP timestamp, whatever it reads.
    fn now(&self) -> (r: NtpTimestamp)
        ensures
            exists|reading: Option<(u64, u32)>|
                valid_unix_reading(reading) && r == #[trigger] SystemClock::spec_timestamp_of(
                    reading,
                ),
    {
        let reading = Self::get_precise_time();
        let r = Self::timestamp_of(reading);
        assert(valid_unix_reading(reading) && r == SystemClock::spec_timestamp_of(reading));
        r
    }

    fn reference_id(&self) -> (r: [u8; 4])
        ensures
            r == REFERENCE_LOCAL,
    {
        REFERENCE_LOCAL
    }

    fn stratum(&self) -> (r: u8)
        ensures
            r == STRATUM_UNSYNCHRONIZED,
    {
        STRATUM_UNSYNCHRONIZED
    }

    fn precision(&self) -> (r: i8)
        ensures
            r == PRECISION_SYSTEM,
    {
        PRECISION_SYSTEM
    }
}

/// The last fix taken from an NMEA sentence. It is replaced whole, never
/// changed in place.
#[derive(Debug, Clone, Copy, PartialEq, Eq, Structural)]
pub struct GpsSync {
    /// GPS time that the sentence carried.
    pub timestamp: NtpTimestamp,
    /// When the sentence arrived, on the clock's monotonic line.
    pub captured_at: u128,
    /// Satellites in use.
    pub quality: u8,
}

/// When the PPS offset was last measured, and from how many pulses. The
/// offset itself is a fraction of a second and is kept by the caller.
#[derive(Debug, Clone, Copy, PartialEq, Eq, Structural)]
pub struct PpsMark {
    pub measured_at: u128,
    pub sample_count: u32,
}

/// What one PPS edge contributes to the offset: the wall clock when the
/// edge was handled, the time since the edge, and the GPS second that the
/// edge marks. The host's time at the edge is the first less the second;
/// the offset is that less `gps_seconds`.
#[derive(Debug, Clone, Copy, PartialEq, Eq, Structural)]
pub struct PpsSample {
    pub system_time: NtpTimestamp,
    pub since_edge_nanos: u128,
    pub gps_seconds: u32,
    /// Whether this is the first sample, which sets the offset, or a later
    /// one, which is averaged in.
    pub first: bool,
}

/// Where the present GPS time comes from.
#[derive(Debug, Clone, Copy, PartialEq, Eq, Structural)]
pub enum GpsTime {
    /// A fresh PPS offset exists: the time is this reading of the system
    /// clock less the offset.
    PpsCorrected { system_now: NtpTimestamp },
    /// The time of the last fix plus the time since.
    Extrapolated(NtpTimestamp),
    /// No GPS time is known: the system clock as it reads.
    Fallback(NtpTimestamp),
}

/// What the GPS-disciplined clock remembers.
#[derive(Debug, Clone, Copy, PartialEq, Eq, Structural)]
pub struct GpsState {
    pub last_sync: Option<GpsSync>,
    pub pps: Option<PpsMark>,
    /// Seconds after which a fix is stale.
    pub sync_timeout: u64,
}

/// A clock disciplined by a GPS receiver: its state, and the host's two
/// clocks to date and to read it. Its view is the state.
pub struct GpsNmeaClock {
    state: GpsState,
    system_clock: SystemClock,
    line: Monotonic,
}

impl View for GpsNmeaClock {
    type V = GpsState;

    closed spec fn view(&self) -> GpsState {
        self.state
    }
}

/// A duration of `nanos` nanoseconds in units of 2^-32 s, the unit of a
/// timestamp: the whole seconds in the upper part, the rest scaled down.
pub open spec fn spec_duration_units(nanos: u128) -> int {
    (nanos / 1_000_000_000) * 0x1_0000_0000 + ((nanos % 1_000_000_000) * 0x1_0000_0000)
        / 1_000_000_000
}

/// The time of a fix carried forward by the time since it was captured:
/// the fix's timestamp plus that time. The sum wraps at 2^64 units, as a
/// timestamp does at the end of its era.
pub open spec fn spec_extrapolated(sync: GpsSync, now: u128) -> NtpTimestamp {
    NtpTimestamp(
        ((sync.timestamp.0 + spec_duration_units(spec_elapsed(sync.captured_at, now)))
            % 0x1_0000_0000_0000_0000) as u64,
    )
}

/// Carries the time of a fix forward to `now`.
pub fn extrapolated(sync: GpsSync, now: u128) -> (r: NtpTimestamp)
    ensures
        r == spec_extrapolated(sync, now),
{
    let since: u128 = elapsed(sync.captured_at, now);
    let seconds: u128 = since / 1_000_000_000;
    let whole: u128 = seconds % 0x1_0000_0000;
    let rest: u128 = since % 1_000_000_000;
    let fraction: u128 = (rest * 0x1_0000_0000) / 1_000_000_000;
    let sum: u128 = sync.timestamp.0 as u128 + whole * 0x1_0000_0000 + fraction;
    let r = NtpTimestamp((sum % 0x1_0000_0000_0000_0000) as u64);
    proof {
        let eras = (seconds / 0x1_0000_0000) as int;
        assert(seconds == eras * 0x1_0000_0000 + whole);
        assert(sync.timestamp.0 + spec_duration_units(since) == 0x1_0000_0000_0000_0000 * eras
            + sum);
        vstd::arithmetic::div_mod::lemma_mod_multiples_vanish(
            eras,
            sum as int,
            0x1_0000_0000_0000_0000,
        );
    }
    r
}

impl GpsState {
    /// The state of a clock without a fix.
    pub fn new(sync_timeout_secs: u64) -> (r: Self)
        ensures
            r == (GpsState { last_sync: None, pps: None, sync_timeout: sync_timeout_secs }),
    {
        GpsState { last_sync: None, pps: None, sync_timeout: sync_timeout_secs }
    }

    /// Synced predicate: a fix exists, it is younger than the timeout, and
    /// it used three satellites or more.
    pub open spec fn spec_synced_at(&self, now: u128) -> bool {
        match self.last_sync {
            Some(sync) => spec_elapsed(sync.captured_at, now) / 1_000_000_000 < self.sync_timeout
                && sync.quality >= MIN_SYNC_SATELLITES,
            None => false,
        }
    }

    pub fn synced_at(&self, now: u128) -> (r: bool)
        ensures
            r == self.spec_synced_at(now),
    {
        match self.last_sync {
            Some(sync) => {
                let since: u128 = elapsed(sync.captured_at, now);
                since / 1_000_000_000 < self.sync_timeout as u128 && sync.quality
                    >= MIN_SYNC_SATELLITES
            },
            None => false,
        }
    }

    /// Whether a PPS offset exists and was measured less than five seconds
    /// before `now`.
    pub open spec fn spec_pps_fresh_at(&self, now: u128) -> bool {
        match self.pps {
            Some(mark) => spec_elapsed(mark.measured_at, now) / 1_000_000_000 < PPS_MAX_AGE_SECS,
            None => false,
        }
    }

    pub fn pps_fresh_at(&self, now: u128) -> (r: bool)
        ensures
            r == self.spec_pps_fresh_at(now),
    {
        match self.pps {
            Some(mark) => {
                let since: u128 = elapsed(mark.measured_at, now);
                since / 1_000_000_000 < PPS_MAX_AGE_SECS
            },
            None => false,
        }
    }

    /// The source of the time at `now`, in order of preference: the PPS
    /// correction while it is fresh, else the last fix carried forward, else
    /// the system clock.
    pub open spec fn spec_time_at(&self, now: u128, system_now: NtpTimestamp) -> GpsTime {
        if self.spec_pps_fresh_at(now) {
            GpsTime::PpsCorrected { system_now }
        } else {
            match self.last_sync {
                Some(sync) => GpsTime::Extrapolated(spec_extrapolated(sync, now)),
                None => GpsTime::Fallback(system_now),
            }
        }
    }

    pub fn time_at(&self, now: u128, system_now: NtpTimestamp) -> (r: GpsTime)
        ensures
            r == self.spec_time_at(now, system_now),
    {
        if self.pps_fresh_at(now) {
            GpsTime::PpsCorrected { system_now }
        } else {
            match self.last_sync {
                Some(sync) => GpsTime::Extrapolated(extrapolated(sync, now)),
                None => GpsTime::Fallback(system_now),
            }
        }
    }

    /// Stratum at `now`: 1 while synced, 16 otherwise.
    pub open spec fn spec_stratum_at(&self, now: u128) -> u8 {
        if self.spec_synced_at(now) {
            STRATUM_PRIMARY
        } else {
            STRATUM_UNSYNCHRONIZED
        }
    }

    pub fn stratum_at(&self, now: u128) -> (r: u8)
        ensures
            r == self.spec_stratum_at(now),
    {
        if self.synced_at(now) {
            STRATUM_PRIMARY
        } else {
            STRATUM_UNSYNCHRONIZED
        }
    }

    /// Reference identifier at `now`: "GPS" while synced, "LOCL" otherwise.
    pub open spec fn spec_reference_id_at(&self, now: u128) -> [u8; 4] {
        if self.spec_synced_at(now) {
            REFERENCE_GPS
        } else {
            REFERENCE_LOCAL
        }
    }

    pub fn reference_id_at(&self, now: u128) -> (r: [u8; 4])
        ensures
            r == self.spec_reference_id_at(now),
    {
        if self.synced_at(now) {
            REFERENCE_GPS
        } else {
            REFERENCE_LOCAL
        }
    }

    /// Precision at `now`: -20 while synced, the system clock's otherwise.
    pub open spec fn spec_precision_at(&self, now: u128) -> i8 {
        if self.spec_synced_at(now) {
            PRECISION_GPS
        } else {
            PRECISION_SYSTEM
        }
    }

    pub fn precision_at(&self, now: u128) -> (r: i8)
        ensures
            r == self.spec_precision_at(now),
    {
        if self.synced_at(now) {
            PRECISION_GPS
        } else {
            PRECISION_SYSTEM
        }
    }

    /// The state after a fix captured at `now` has replaced the last one.
    pub open spec fn spec_with_fix(self, gps_timestamp: NtpTimestamp, satellite_count: u8, now: u128)
        -> GpsState {
        GpsState {
            last_sync: Some(
                GpsSync { timestamp: gps_timestamp, captured_at: now, quality: satellite_count },
            ),
            ..self
        }
    }

    /// Replaces the last fix by one captured at `now`.
    pub fn update_gps_time_at(&mut self, gps_timestamp: NtpTimestamp, satellite_count: u8, now: u128)
        ensures
            *final(self) == old(self).spec_with_fix(gps_timestamp, satellite_count, now),
    {
        self.last_sync = Some(
            GpsSync { timestamp: gps_timestamp, captured_at: now, quality: satellite_count },
        );
    }

    /// The mark after one more PPS sample at `now`: the first sample counts
    /// one, each later one adds one, and the count stops at `u32::MAX`.
    pub open spec fn spec_next_mark(pps: Option<PpsMark>, now: u128) -> PpsMark {
        match pps {
            Some(mark) => PpsMark {
                measured_at: now,
                sample_count: if mark.sample_count < u32::MAX {
                    (mark.sample_count + 1) as u32
                } else {
                    u32::MAX
                },
            },
            None => PpsMark { measured_at: now, sample_count: 1 },
        }
    }

    /// Records a PPS edge seen at `pps_at` and handled at `now`, when the
    /// wall clock read `system_time`. `gps_second_boundary` is the GPS
    /// second that the edge marks. The result is what the edge contributes
    /// to the offset.
    pub fn update_pps_offset_at(
        &mut self,
        pps_at: u128,
        gps_second_boundary: NtpTimestamp,
        now: u128,
        system_time: NtpTimestamp,
    ) -> (r: PpsSample)
        ensures
            *final(self) == (GpsState {
                pps: Some(Self::spec_next_mark(old(self).pps, now)),
                ..*old(self)
            }),
            r == (PpsSample {
                system_time,
                since_edge_nanos: spec_elapsed(pps_at, now),
                gps_seconds: gps_second_boundary.spec_seconds(),
                first: old(self).pps is None,
            }),
    {
        let first = self.pps.is_none();
        let mark = match self.pps {
            Some(mark) => PpsMark {
                measured_at: now,
                sample_count: if mark.sample_count < u32::MAX {
                    mark.sample_count + 1
                } else {
                    u32::MAX
                },
            },
            None => PpsMark { measured_at: now, sample_count: 1 },
        };
        self.pps = Some(mark);
        PpsSample {
            system_time,
            since_edge_nanos: elapsed(pps_at, now),
            gps_seconds: gps_second_boundary.seconds(),
            first,
        }
    }
}

impl GpsNmeaClock {
    /// A clock without a fix, whose fixes go stale after
    /// `sync_timeout_secs` seconds.
    pub fn new(sync_timeout_secs: u64) -> (r: Self)
        ensures
            r@ == (GpsState { last_sync: None, pps: None, sync_timeout: sync_timeout_secs }),
    {
        GpsNmeaClock {
            state: GpsState::new(sync_timeout_secs),
            system_clock: SystemClock::new(),
            line: Monotonic::start(),
        }
    }

    /// The clock's state.
    pub fn state(&self) -> (r: GpsState)
        ensures
            r == self@,
    {
        self.state
    }

    /// The present moment on the clock's monotonic line. Fixes and PPS
    /// edges are dated on this line.
    pub fn monotonic_now(&self) -> (r: u128) {
        self.line.now()
    }

    /// Replaces the last fix by one captured at the present moment.
    pub fn update_gps_time(&mut self, gps_timestamp: NtpTimestamp, satellite_count: u8)
        ensures
            exists|now: u128|
                final(self)@ == #[trigger] old(self)@.spec_with_fix(
                    gps_timestamp,
                    satellite_count,
                    now,
                ),
    {
        let now: u128 = self.line.now();
        self.state.update_gps_time_at(gps_timestamp, satellite_count, now);
        assert(self@ == old(self)@.spec_with_fix(gps_timestamp, satellite_count, now));
    }

    /// Records a PPS edge seen at `pps_at` on the clock's monotonic line,
    /// reading both clocks for the present moment.
    pub fn update_pps_offset(&mut self, pps_at: u128, gps_second_boundary: NtpTimestamp) -> (r:
        PpsSample)
        ensures
            exists|now: u128|
                final(self)@ == (GpsState {
                    pps: Some(#[trigger] GpsState::spec_next_mark(old(self)@.pps, now)),
                    ..old(self)@
                }) && r.since_edge_nanos == spec_elapsed(pps_at, now),
            r.gps_seconds == gps_second_boundary.spec_seconds(),
            r.first == (old(self)@.pps is None),
    {
        let system_time = self.system_clock.now();
        let now: u128 = self.line.now();
        let r = self.state.update_pps_offset_at(pps_at, gps_second_boundary, now, system_time);
        assert(self@ == (GpsState {
            pps: Some(GpsState::spec_next_mark(old(self)@.pps, now)),
            ..old(self)@
        }));
        r
    }

    /// Whether the clock is synced at the present moment.
    pub fn is_gps_synced(&self) -> (r: bool)
        ensures
            exists|now: u128| r == #[trigger] self@.spec_synced_at(now),
    {
        let now: u128 = self.line.now();
        let r = self.state.synced_at(now);
        assert(r == self@.spec_synced_at(now));
        r
    }

    /// The source of the present GPS time.
    pub fn calculate_gps_time(&self) -> (r: GpsTime)
        ensures
            exists|now: u128, system_now: NtpTimestamp|
                r == #[trigger] self@.spec_time_at(now, system_now),
    {
        let system_now = self.system_clock.now();
        let now: u128 = self.line.now();
        let r = self.state.time_at(now, system_now);
        assert(r == self@.spec_time_at(now, system_now));
        r
    }

    /// The reference identifier at the present moment.
    pub fn reference_id(&self) -> (r: [u8; 4])
        ensures
            exists|now: u128| r == #[trigger] self@.spec_reference_id_at(now),
    {
        let now: u128 = self.line.now();
        let r = self.state.reference_id_at(now);
        assert(r == self@.spec_reference_id_at(now));
        r
    }

    /// The stratum at the present moment.
    pub fn stratum(&self) -> (r: u8)
        ensures
            exists|now: u128| r == #[trigger] self@.spec_stratum_at(now),
    {
        let now: u128 = self.line.now();
        let r = self.state.stratum_at(now);
        assert(r == self@.spec_stratum_at(now));
        r
    }

    /// The precision at the present moment.
    pub fn precision(&self) -> (r: i8)
        ensures
            exists|now: u128| r == #[trigger] self@.spec_precision_at(now),
    {
        let now: u128 = self.line.now();
        let r = self.state.precision_at(now);
        assert(r == self@.spec_precision_at(now));
        r
    }
}

/// A fix goes stale: once the time since its capture reaches the timeout,
/// the clock reports stratum 16 and the reference "LOCL", whatever the fix
/// held.
pub proof fn lemma_stale_fix_degrades(clock: GpsState, sync: GpsSync, now: u128)
    requires
        clock.last_sync == Some(sync),
        now >= sync.captured_at + clock.sync_timeout * 1_000_000_000,
    ensures
        !clock.spec_synced_at(now),
        clock.spec_stratum_at(now) == STRATUM_UNSYNCHRONIZED,
        clock.spec_reference_id_at(now) == REFERENCE_LOCAL,
{
    let since = spec_elapsed(sync.captured_at, now);
    assert(since >= clock.sync_timeout * 1_000_000_000);
}

/// A fix with three satellites or more makes the clock a primary reference
/// for as long as it is younger than the timeout.
pub proof fn lemma_fresh_fix_is_primary(clock: GpsState, sync: GpsSync, now: u128)
    requires
        clock.last_sync == Some(sync),
        sync.quality >= MIN_SYNC_SATELLITES,
        sync.captured_at <= now < sync.captured_at + clock.sync_timeout * 1_000_000_000,
    ensures
        clock.spec_synced_at(now),
        clock.spec_stratum_at(now) == STRATUM_PRIMARY,
        clock.spec_reference_id_at(now) == REFERENCE_GPS,
{
}

/// A longer duration has no fewer units.
pub proof fn lemma_duration_units_monotonic(shorter: u128, longer: u128)
    requires
        shorter <= longer,
    ensures
        0 <= spec_duration_units(shorter) <= spec_duration_units(longer),
{
    let fa = ((shorter % 1_000_000_000) * 0x1_0000_0000) / 1_000_000_000;
    let fb = ((longer % 1_000_000_000) * 0x1_0000_0000) / 1_000_000_000;
    assert(0 <= fa < 0x1_0000_0000);
    assert(0 <= fb < 0x1_0000_0000);
    if shorter / 1_000_000_000 == longer / 1_000_000_000 {
        assert(shorter % 1_000_000_000 <= longer % 1_000_000_000);
        assert(fa <= fb);
    }
}

/// The extrapolated time does not run backwards: of two readings of the
/// monotonic line, the later gives the later or the same timestamp, as
/// long as the timestamp stays within its era.
pub proof fn lemma_extrapolation_monotonic(sync: GpsSync, earlier: u128, later: u128)
    requires
        earlier <= later,
        sync.timestamp.0 + spec_duration_units(spec_elapsed(sync.captured_at, later))
            < 0x1_0000_0000_0000_0000,
    ensures
        spec_extrapolated(sync, earlier).0 <= spec_extrapolated(sync, later).0,
{
    lemma_duration_units_monotonic(
        spec_elapsed(sync.captured_at, earlier),
        spec_elapsed(sync.captured_at, later),
    );
}

} // verus!
