//! The GPS reader's decisions: what to do with the octets that arrive from
//! the receiver and with each sample of the CTS line that carries the PPS.
//!
//! The reader here is a state machine. Its caller owns the serial port,
//! hands over what it read together with the time on the clock's
//! monotonic line, and carries out what comes back: updating the clock,
//! publishing statistics, and sleeping before it reconnects.

use crate::config::GpsConfig;
use crate::nmea::{
    kind, lemma_split_nonempty, parse_gga, parse_gsv, parse_rmc, pieces_view, spec_kind,
    spec_parse_gga, spec_parse_gsv, spec_parse_rmc, spec_split, split_on, SentenceKind,
};
use crate::packet::NtpTimestamp;
use crate::stats::SatelliteInfo;
use crate::timebase::{elapsed, spec_elapsed};
use vstd::prelude::*;

verus! {

pub const NEWLINE: u8 = 10;

/// Seconds to wait before the first reconnection.
pub const INITIAL_RECONNECT_DELAY_SECS: u64 = 5;

/// Longest wait between two reconnections, in seconds.
pub const MAX_RECONNECT_DELAY_SECS: u64 = 60;

/// Timeout of one read from the serial port, in milliseconds.
pub const READ_TIMEOUT_MILLIS: u64 = 100;

/// Most octets taken from the serial port in one read.
pub const READ_CHUNK: usize = 512;

/// Shortest time between two PPS edges that disciplines the clock.
pub const PPS_MIN_INTERVAL_NANOS: u128 = 950_000_000;

/// Longest time between two PPS edges that disciplines the clock.
pub const PPS_MAX_INTERVAL_NANOS: u128 = 1_050_000_000;

/// The satellites in view are published when more than this time has
/// passed since they last were.
pub const SATELLITE_PUBLISH_NANOS: u128 = 2_000_000_000;

/// The wait after the wait `current`: twice as long, at most sixty
/// seconds.
pub open spec fn spec_next_reconnect_delay(current: u64) -> u64 {
    if current * 2 > MAX_RECONNECT_DELAY_SECS {
        MAX_RECONNECT_DELAY_SECS
    } else {
        (current * 2) as u64
    }
}

pub fn next_reconnect_delay(current: u64) -> (r: u64)
    ensures
        r == spec_next_reconnect_delay(current),
        r <= MAX_RECONNECT_DELAY_SECS,
{
    if current > MAX_RECONNECT_DELAY_SECS / 2 {
        MAX_RECONNECT_DELAY_SECS
    } else {
        current * 2
    }
}

/// The wait before the `attempt`-th reconnection, counting from zero.
pub open spec fn spec_reconnect_delay(attempt: nat) -> u64
    decreases attempt,
{
    if attempt == 0 {
        INITIAL_RECONNECT_DELAY_SECS
    } else {
        spec_next_reconnect_delay(spec_reconnect_delay((attempt - 1) as nat))
    }
}

/// The waits are 5, 10, 20 and 40 seconds, and sixty seconds from then on.
pub proof fn lemma_reconnect_delays(attempt: nat)
    ensures
        spec_reconnect_delay(0) == 5,
        spec_reconnect_delay(1) == 10,
        spec_reconnect_delay(2) == 20,
        spec_reconnect_delay(3) == 40,
        attempt >= 4 ==> spec_reconnect_delay(attempt) == 60,
    decreases attempt,
{
    reveal_with_fuel(spec_reconnect_delay, 5);
    if attempt > 4 {
        lemma_reconnect_delays((attempt - 1) as nat);
    }
}

/// Whether an octet is ASCII white space.
pub open spec fn is_space(b: u8) -> bool {
    b == 32 || (9 <= b <= 13)
}

/// `s` without the white space at its end.
pub open spec fn spec_trim_end(s: Seq<u8>) -> Seq<u8>
    decreases s.len(),
{
    if s.len() > 0 && is_space(s.last()) {
        spec_trim_end(s.drop_last())
    } else {
        s
    }
}

/// `s` without the white space at its start.
pub open spec fn spec_trim_start(s: Seq<u8>) -> Seq<u8>
    decreases s.len(),
{
    if s.len() > 0 && is_space(s[0]) {
        spec_trim_start(s.subrange(1, s.len() as int))
    } else {
        s
    }
}

/// `s` without the white space at either end.
pub open spec fn spec_trim(s: Seq<u8>) -> Seq<u8> {
    spec_trim_start(spec_trim_end(s))
}

exec fn check_space(b: u8) -> (r: bool)
    ensures
        r == is_space(b),
{
    b == 32 || (9 <= b && b <= 13)
}

/// Copies `s` without the white space at either end.
pub fn trim(s: &[u8]) -> (r: Vec<u8>)
    ensures
        r@ == spec_trim(s@),
{
    let mut end: usize = s.len();
    proof {
        assert(s@.subrange(0, end as int) =~= s@);
    }
    while end > 0 && check_space(s[end - 1])
        invariant
            end <= s.len(),
            spec_trim_end(s@) == spec_trim_end(s@.subrange(0, end as int)),
        decreases end,
    {
        proof {
            let cur = s@.subrange(0, end as int);
            assert(cur.last() == s@[end - 1]);
            assert(cur.drop_last() =~= s@.subrange(0, end - 1));
        }
        end -= 1;
    }
    proof {
        let cur = s@.subrange(0, end as int);
        if end > 0 {
            assert(cur.last() == s@[end - 1]);
        }
        assert(spec_trim_end(s@) == cur);
    }
    let mut start: usize = 0;
    while start < end && check_space(s[start])
        invariant
            start <= end <= s.len(),
            spec_trim(s@) == spec_trim_start(s@.subrange(start as int, end as int)),
        decreases end - start,
    {
        proof {
            let cur = s@.subrange(start as int, end as int);
            assert(cur[0] == s@[start as int]);
            assert(cur.subrange(1, cur.len() as int) =~= s@.subrange(start + 1, end as int));
        }
        start += 1;
    }
    proof {
        let cur = s@.subrange(start as int, end as int);
        if start < end {
            assert(cur[0] == s@[start as int]);
        }
        assert(spec_trim(s@) == cur);
    }
    let mut out: Vec<u8> = Vec::new();
    let mut i: usize = start;
    while i < end
        invariant
            start <= i <= end <= s.len(),
            out@ == s@.subrange(start as int, i as int),
        decreases end - i,
    {
        out.push(s[i]);
        proof {
            assert(out@ =~= s@.subrange(start as int, i + 1));
        }
        i += 1;
    }
    out
}

/// The index of the first satellite with the number `prn`, or the length
/// of the list when there is none.
pub open spec fn spec_position(list: Seq<SatelliteInfo>, prn: u8) -> int
    decreases list.len(),
{
    if list.len() == 0 {
        0
    } else if list[0].prn == prn {
        0
    } else {
        1 + spec_position(list.subrange(1, list.len() as int), prn)
    }
}

/// The list with `satellite` merged in by its number: it takes the place
/// of the first entry with that number, or goes to the end.
pub open spec fn spec_merge(list: Seq<SatelliteInfo>, satellite: SatelliteInfo) -> Seq<
    SatelliteInfo,
> {
    let at = spec_position(list, satellite.prn);
    if at < list.len() {
        list.update(at, satellite)
    } else {
        list.push(satellite)
    }
}

/// The list with each of `found` merged in, in order.
pub open spec fn spec_merge_all(list: Seq<SatelliteInfo>, found: Seq<SatelliteInfo>) -> Seq<
    SatelliteInfo,
>
    decreases found.len(),
{
    if found.len() == 0 {
        list
    } else {
        spec_merge(spec_merge_all(list, found.drop_last()), found.last())
    }
}

/// No two satellites of the list have the same number.
pub open spec fn distinct_prns(list: Seq<SatelliteInfo>) -> bool {
    forall|i: int, j: int|
        0 <= i < j < list.len() ==> (#[trigger] list[i]).prn != (#[trigger] list[j]).prn
}

/// The position is the first index that holds the number.
pub proof fn lemma_position(list: Seq<SatelliteInfo>, prn: u8, at: int)
    requires
        0 <= at <= list.len(),
        forall|j: int| 0 <= j < at ==> (#[trigger] list[j]).prn != prn,
        at == list.len() || list[at].prn == prn,
    ensures
        spec_position(list, prn) == at,
    decreases list.len(),
{
    if list.len() > 0 && at > 0 {
        let rest = list.subrange(1, list.len() as int);
        assert(list[0].prn != prn);
        assert forall|j: int| 0 <= j < at - 1 implies (#[trigger] rest[j]).prn != prn by {
            assert(rest[j] == list[j + 1]);
        }
        lemma_position(rest, prn, at - 1);
    }
}

/// The position lies in the list or just after it, and no earlier entry
/// holds the number.
pub proof fn lemma_position_bounds(list: Seq<SatelliteInfo>, prn: u8)
    ensures
        0 <= spec_position(list, prn) <= list.len(),
        forall|j: int| 0 <= j < spec_position(list, prn) ==> (#[trigger] list[j]).prn != prn,
        spec_position(list, prn) < list.len() ==> list[spec_position(list, prn)].prn == prn,
    decreases list.len(),
{
    if list.len() > 0 && list[0].prn != prn {
        let rest = list.subrange(1, list.len() as int);
        lemma_position_bounds(rest, prn);
        assert forall|j: int| 0 <= j < spec_position(list, prn) implies (#[trigger] list[j]).prn
            != prn by {
            if j > 0 {
                assert(rest[j - 1] == list[j]);
            }
        }
    }
}

/// Merging keeps the numbers of a list distinct.
pub proof fn lemma_merge_keeps_distinct(list: Seq<SatelliteInfo>, satellite: SatelliteInfo)
    requires
        distinct_prns(list),
    ensures
        distinct_prns(spec_merge(list, satellite)),
{
    lemma_position_bounds(list, satellite.prn);
    let at = spec_position(list, satellite.prn);
    let merged = spec_merge(list, satellite);
    assert forall|i: int, j: int| 0 <= i < j < merged.len() implies (#[trigger] merged[i]).prn != (
    #[trigger] merged[j]).prn by {
        if at < list.len() {
            if i == at {
                assert(list[at].prn != list[j].prn);
            } else if j == at {
                assert(list[i].prn != list[at].prn);
            } else {
                assert(list[i].prn != list[j].prn);
            }
        } else {
            if j == list.len() {
                assert(list[i].prn != satellite.prn);
            } else {
                assert(list[i].prn != list[j].prn);
            }
        }
    }
}

/// Merging a whole sentence keeps the numbers of a list distinct.
pub proof fn lemma_merge_all_keeps_distinct(list: Seq<SatelliteInfo>, found: Seq<SatelliteInfo>)
    requires
        distinct_prns(list),
    ensures
        distinct_prns(spec_merge_all(list, found)),
    decreases found.len(),
{
    if found.len() > 0 {
        lemma_merge_all_keeps_distinct(list, found.drop_last());
        lemma_merge_keeps_distinct(spec_merge_all(list, found.drop_last()), found.last());
    }
}

/// Merges `satellite` into `list` by its number.
pub fn merge_satellite(list: &mut Vec<SatelliteInfo>, satellite: SatelliteInfo)
    ensures
        final(list)@ == spec_merge(old(list)@, satellite),
{
    let mut i: usize = 0;
    while i < list.len()
        invariant
            i <= list.len(),
            list@ == old(list)@,
            forall|j: int| 0 <= j < i ==> (#[trigger] list@[j]).prn != satellite.prn,
        decreases list.len() - i,
    {
        if list[i].prn == satellite.prn {
            proof {
                lemma_position(list@, satellite.prn, i as int);
            }
            list[i] = satellite;
            return ;
        }
        i += 1;
    }
    proof {
        lemma_position(list@, satellite.prn, i as int);
    }
    list.push(satellite);
}

/// What one sentence tells.
#[derive(Debug, Clone, Copy, PartialEq, Eq, Structural)]
pub enum SentenceOutcome {
    /// An RMC sentence with a valid fix: the GPS time, and the satellite
    /// count credited to it. The clock takes the fix; the count is
    /// published.
    Fix { timestamp: NtpTimestamp, satellites: u8 },
    /// A GGA sentence: the satellite count, to be published.
    SatelliteCount(u8),
    /// Nothing to act on.
    Nothing,
}

/// What one line of input leads to.
#[derive(Debug, Clone, Copy, PartialEq, Eq, Structural)]
pub struct LineOutcome {
    pub sentence: SentenceOutcome,
    /// Whether the satellites in view are to be published now.
    pub publish_satellites: bool,
}

/// What one sample of the CTS line leads to.
#[derive(Debug, Clone, Copy, PartialEq, Eq, Structural)]
pub enum PpsOutcome {
    /// No rising edge.
    NoEdge,
    /// A rising edge, the `count`-th. With a `boundary` the edge
    /// disciplines the clock: it marks that GPS second. `out_of_range`
    /// asks for a warning about the time since the edge before.
    Pulse { count: u64, boundary: Option<NtpTimestamp>, out_of_range: bool },
}

/// The reader's state as mathematical values.
pub struct ReaderModel {
    pub min_satellites: u8,
    pub pps_enabled: bool,
    /// Input after the last line feed.
    pub buffer: Seq<u8>,
    pub last_cts: bool,
    pub last_pps_pulse: u128,
    pub pps_count: u64,
    /// Sentences that carried a fix.
    pub nmea_count: u64,
    pub last_gps_timestamp: Option<NtpTimestamp>,
    pub satellites: Seq<SatelliteInfo>,
    pub last_satellite_update: u128,
    pub last_rx: u128,
    pub started: u128,
}

impl ReaderModel {
    /// What the sentence `line` tells a reader in this state.
    pub open spec fn sentence_outcome(self, line: Seq<u8>) -> SentenceOutcome {
        match spec_kind(line) {
            SentenceKind::Rmc => match spec_parse_rmc(line) {
                Some(timestamp) => SentenceOutcome::Fix {
                    timestamp,
                    satellites: self.min_satellites,
                },
                None => SentenceOutcome::Nothing,
            },
            SentenceKind::Gga => match spec_parse_gga(line) {
                Some(count) => SentenceOutcome::SatelliteCount(count),
                None => SentenceOutcome::Nothing,
            },
            _ => SentenceOutcome::Nothing,
        }
    }

    /// Whether the satellites are published for a GSV sentence at `now`:
    /// more than two seconds after they last were.
    pub open spec fn publish_due(self, now: u128) -> bool {
        spec_elapsed(self.last_satellite_update, now) > SATELLITE_PUBLISH_NANOS
    }

    /// The state after the line `line` at `now`. The satellites of a GSV
    /// sentence are merged in, and published when that is due; a fix is
    /// counted and remembered for the next PPS edge.
    pub open spec fn after_line(self, line: Seq<u8>, now: u128) -> ReaderModel {
        let merged = match spec_parse_gsv(line) {
            Some(found) => ReaderModel {
                satellites: spec_merge_all(self.satellites, found),
                last_satellite_update: if self.publish_due(now) {
                    now
                } else {
                    self.last_satellite_update
                },
                ..self
            },
            None => self,
        };
        match self.sentence_outcome(line) {
            SentenceOutcome::Fix { timestamp, satellites } => ReaderModel {
                nmea_count: if self.nmea_count < u64::MAX {
                    (self.nmea_count + 1) as u64
                } else {
                    u64::MAX
                },
                last_gps_timestamp: Some(timestamp),
                ..merged
            },
            _ => merged,
        }
    }

    /// What the line `line` at `now` leads to.
    pub open spec fn line_outcome(self, line: Seq<u8>, now: u128) -> LineOutcome {
        LineOutcome {
            sentence: self.sentence_outcome(line),
            publish_satellites: spec_parse_gsv(line) is Some && self.publish_due(now),
        }
    }

    /// Whether a sample `cts` of the CTS line is a rising edge that the
    /// reader acts on.
    pub open spec fn rising(self, cts: bool) -> bool {
        self.pps_enabled && cts && !self.last_cts
    }

    /// Whether an edge at `now` comes between 0.95 s and 1.05 s after the
    /// edge before.
    pub open spec fn interval_in_range(self, now: u128) -> bool {
        PPS_MIN_INTERVAL_NANOS <= spec_elapsed(self.last_pps_pulse, now) <= PPS_MAX_INTERVAL_NANOS
    }

    /// The pulse count after one more pulse.
    pub open spec fn next_pps_count(self) -> u64 {
        if self.pps_count < u64::MAX {
            (self.pps_count + 1) as u64
        } else {
            u64::MAX
        }
    }

    /// The state after the sample `cts` at `now`.
    pub open spec fn after_cts(self, cts: bool, now: u128) -> ReaderModel {
        if !self.pps_enabled {
            self
        } else if self.rising(cts) {
            ReaderModel {
                last_cts: cts,
                last_pps_pulse: now,
                pps_count: self.next_pps_count(),
                ..self
            }
        } else {
            ReaderModel { last_cts: cts, ..self }
        }
    }

    /// What the sample `cts` at `now` leads to. An edge in range, after a
    /// fix, marks the second after that fix. An edge out of range asks for
    /// a warning, but for the first edge, whose interval means nothing.
    pub open spec fn cts_outcome(self, cts: bool, now: u128) -> PpsOutcome {
        if self.rising(cts) {
            PpsOutcome::Pulse {
                count: self.next_pps_count(),
                boundary: match self.last_gps_timestamp {
                    Some(fix) => if self.interval_in_range(now) {
                        Some(spec_second_after(fix))
                    } else {
                        None
                    },
                    None => None,
                },
                out_of_range: !self.interval_in_range(now) && self.next_pps_count() > 1,
            }
        } else {
            PpsOutcome::NoEdge
        }
    }
}

/// The start of the second after the one `fix` lies in. The seconds wrap at
/// 2^32, as they do on the wire.
pub open spec fn spec_second_after(fix: NtpTimestamp) -> NtpTimestamp {
    NtpTimestamp((((fix.spec_seconds() + 1) % 0x1_0000_0000) * 0x1_0000_0000) as u64)
}

pub fn second_after(fix: NtpTimestamp) -> (r: NtpTimestamp)
    ensures
        r == spec_second_after(fix),
        r.spec_fraction() == 0,
        r.spec_seconds() == (fix.spec_seconds() + 1) % 0x1_0000_0000,
{
    let seconds: u64 = fix.seconds() as u64 + 1;
    let r = NtpTimestamp::from_seconds_and_nanos(seconds, 0);
    proof {
        crate::packet::lemma_timestamp_halves(seconds, 0);
        assert(r.0 == r.spec_seconds() * 0x1_0000_0000 + r.spec_fraction());
    }
    r
}

/// The GPS reader's state between two events. Its view is a
/// [`ReaderModel`].
pub struct GpsReader {
    min_satellites: u8,
    pps_enabled: bool,
    buffer: Vec<u8>,
    last_cts: bool,
    last_pps_pulse: u128,
    pps_count: u64,
    nmea_count: u64,
    last_gps_timestamp: Option<NtpTimestamp>,
    satellites_in_view: Vec<SatelliteInfo>,
    last_satellite_update: u128,
    last_rx: u128,
    started: u128,
}

impl View for GpsReader {
    type V = ReaderModel;

    closed spec fn view(&self) -> ReaderModel {
        ReaderModel {
            min_satellites: self.min_satellites,
            pps_enabled: self.pps_enabled,
            buffer: self.buffer@,
            last_cts: self.last_cts,
            last_pps_pulse: self.last_pps_pulse,
            pps_count: self.pps_count,
            nmea_count: self.nmea_count,
            last_gps_timestamp: self.last_gps_timestamp,
            satellites: self.satellites_in_view@,
            last_satellite_update: self.last_satellite_update,
            last_rx: self.last_rx,
            started: self.started,
        }
    }
}

/// The lines that `pieces` holds in full: all but the last, each trimmed.
pub open spec fn spec_complete_lines(pieces: Seq<Seq<u8>>) -> Seq<Seq<u8>> {
    Seq::new((pieces.len() - 1) as nat, |k: int| spec_trim(pieces[k]))
}

impl GpsReader {
    /// A reader that starts at `now` on the clock's monotonic line, with
    /// the CTS line as `cts` shows it.
    pub fn new(config: &GpsConfig, cts: bool, now: u128) -> (r: Self)
        ensures
            r@ == (ReaderModel {
                min_satellites: config.min_satellites,
                pps_enabled: config.pps_enabled,
                buffer: Seq::<u8>::empty(),
                last_cts: cts,
                last_pps_pulse: now,
                pps_count: 0,
                nmea_count: 0,
                last_gps_timestamp: None,
                satellites: Seq::<SatelliteInfo>::empty(),
                last_satellite_update: now,
                last_rx: now,
                started: now,
            }),
    {
        GpsReader {
            min_satellites: config.min_satellites,
            pps_enabled: config.pps_enabled,
            buffer: Vec::new(),
            last_cts: cts,
            last_pps_pulse: now,
            pps_count: 0,
            nmea_count: 0,
            last_gps_timestamp: None,
            satellites_in_view: Vec::new(),
            last_satellite_update: now,
            last_rx: now,
            started: now,
        }
    }

    /// Takes in what one read returned at `now` and gives back the lines
    /// that are now complete, each without the white space around it. What
    /// follows the last line feed is kept for the next read.
    pub fn feed(&mut self, bytes: &[u8], now: u128) -> (lines: Vec<Vec<u8>>)
        ensures
            final(self)@ == (ReaderModel {
                buffer: spec_split(old(self)@.buffer + bytes@, NEWLINE).last(),
                last_rx: if bytes@.len() > 0 {
                    now
                } else {
                    old(self)@.last_rx
                },
                ..old(self)@
            }),
            pieces_view(lines@) == spec_complete_lines(
                spec_split(old(self)@.buffer + bytes@, NEWLINE),
            ),
    {
        if bytes.len() > 0 {
            self.last_rx = now;
        }
        let mut i: usize = 0;
        while i < bytes.len()
            invariant
                i <= bytes.len(),
                self.buffer@ == old(self).buffer@ + bytes@.subrange(0, i as int),
                self.min_satellites == old(self).min_satellites,
                self.pps_enabled == old(self).pps_enabled,
                self.last_cts == old(self).last_cts,
                self.last_pps_pulse == old(self).last_pps_pulse,
                self.pps_count == old(self).pps_count,
                self.nmea_count == old(self).nmea_count,
                self.last_gps_timestamp == old(self).last_gps_timestamp,
                self.satellites_in_view == old(self).satellites_in_view,
                self.last_satellite_update == old(self).last_satellite_update,
                self.started == old(self).started,
                self.last_rx == if bytes@.len() > 0 {
                    now
                } else {
                    old(self).last_rx
                },
            decreases bytes.len() - i,
        {
            self.buffer.push(bytes[i]);
            proof {
                assert(self.buffer@ =~= old(self).buffer@ + bytes@.subrange(0, i + 1));
            }
            i += 1;
        }
        proof {
            assert(bytes@.subrange(0, bytes@.len() as int) =~= bytes@);
        }
        let ghost all = old(self).buffer@ + bytes@;
        let ghost model = spec_split(all, NEWLINE);
        let mut pieces = split_on(self.buffer.as_slice(), NEWLINE);
        proof {
            assert(pieces_view(pieces@).len() == pieces@.len());
            assert(pieces_view(pieces@)[pieces@.len() - 1] == pieces@[pieces@.len() - 1]@);
        }
        let ghost whole = pieces@;
        let rest = pieces.pop();
        match rest {
            Some(rest) => {
                self.buffer = rest;
            },
            None => {},
        }
        let mut lines: Vec<Vec<u8>> = Vec::new();
        let mut k: usize = 0;
        while k < pieces.len()
            invariant
                k <= pieces.len(),
                pieces@.len() == model.len() - 1,
                forall|j: int| 0 <= j < pieces@.len() ==> (#[trigger] pieces@[j])@ == model[j],
                lines@.len() == k,
                forall|j: int| 0 <= j < k ==> (#[trigger] lines@[j])@ == spec_trim(model[j]),
            decreases pieces.len() - k,
        {
            proof {
                assert(pieces@[k as int]@ == model[k as int]);
            }
            let line = trim(pieces[k].as_slice());
            lines.push(line);
            k += 1;
        }
        proof {
            assert(pieces_view(lines@) =~= spec_complete_lines(model));
        }
        lines
    }

    /// Reads the time of an RMC sentence and credits it with the
    /// configured satellite count, since the sentence carries none.
    pub fn parse_gprmc(&self, sentence: &[u8]) -> (r: Option<(NtpTimestamp, u8)>)
        ensures
            r == match spec_parse_rmc(sentence@) {
                Some(timestamp) => Some((timestamp, self@.min_satellites)),
                None => None,
            },
    {
        match parse_rmc(sentence) {
            Some(timestamp) => Some((timestamp, self.min_satellites)),
            None => None,
        }
    }

    /// Reads the satellite count of a GGA sentence.
    pub fn parse_gpgga_satellites(&self, sentence: &[u8]) -> (r: Option<u8>)
        ensures
            r == spec_parse_gga(sentence@),
    {
        parse_gga(sentence)
    }

    /// Reads the satellites in view from a GSV sentence.
    pub fn parse_gpgsv(&self, sentence: &[u8]) -> (r: Option<Vec<SatelliteInfo>>)
        ensures
            match r {
                Some(found) => spec_parse_gsv(sentence@) == Some(found@),
                None => spec_parse_gsv(sentence@) is None,
            },
    {
        parse_gsv(sentence)
    }

    /// Tells what a sentence asks for.
    pub fn process_nmea_sentence(&self, sentence: &[u8]) -> (r: SentenceOutcome)
        ensures
            r == self@.sentence_outcome(sentence@),
    {
        match kind(sentence) {
            SentenceKind::Rmc => match self.parse_gprmc(sentence) {
                Some((timestamp, satellites)) => SentenceOutcome::Fix { timestamp, satellites },
                None => SentenceOutcome::Nothing,
            },
            SentenceKind::Gga => match self.parse_gpgga_satellites(sentence) {
                Some(count) => SentenceOutcome::SatelliteCount(count),
                None => SentenceOutcome::Nothing,
            },
            _ => SentenceOutcome::Nothing,
        }
    }

    /// Handles one complete line that arrived at `now`.
    pub fn handle_line(&mut self, line: &[u8], now: u128) -> (r: LineOutcome)
        ensures
            final(self)@ == old(self)@.after_line(line@, now),
            r == old(self)@.line_outcome(line@, now),
            distinct_prns(old(self)@.satellites) ==> distinct_prns(final(self)@.satellites),
    {
        let mut publish_satellites = false;
        match self.parse_gpgsv(line) {
            Some(found) => {
                let mut k: usize = 0;
                while k < found.len()
                    invariant
                        k <= found.len(),
                        self.satellites_in_view@ == spec_merge_all(
                            old(self).satellites_in_view@,
                            found@.subrange(0, k as int),
                        ),
                        self.min_satellites == old(self).min_satellites,
                        self.pps_enabled == old(self).pps_enabled,
                        self.buffer == old(self).buffer,
                        self.last_cts == old(self).last_cts,
                        self.last_pps_pulse == old(self).last_pps_pulse,
                        self.pps_count == old(self).pps_count,
                        self.nmea_count == old(self).nmea_count,
                        self.last_gps_timestamp == old(self).last_gps_timestamp,
                        self.last_satellite_update == old(self).last_satellite_update,
                        self.last_rx == old(self).last_rx,
                        self.started == old(self).started,
                    decreases found.len() - k,
                {
                    proof {
                        let next = found@.subrange(0, k + 1);
                        assert(next.drop_last() =~= found@.subrange(0, k as int));
                        assert(next.last() == found@[k as int]);
                    }
                    merge_satellite(&mut self.satellites_in_view, found[k]);
                    k += 1;
                }
                proof {
                    assert(found@.subrange(0, found@.len() as int) =~= found@);
                    if distinct_prns(old(self)@.satellites) {
                        lemma_merge_all_keeps_distinct(old(self)@.satellites, found@);
                    }
                }
                if elapsed(self.last_satellite_update, now) > SATELLITE_PUBLISH_NANOS {
                    publish_satellites = true;
                    self.last_satellite_update = now;
                }
            },
            None => {},
        }
        let sentence = self.process_nmea_sentence(line);
        match sentence {
            SentenceOutcome::Fix { timestamp, satellites } => {
                if self.nmea_count < u64::MAX {
                    self.nmea_count = self.nmea_count + 1;
                }
                self.last_gps_timestamp = Some(timestamp);
            },
            _ => {},
        }
        LineOutcome { sentence, publish_satellites }
    }

    /// Handles one sample of the CTS line, taken at `now`.
    pub fn on_cts(&mut self, cts: bool, now: u128) -> (r: PpsOutcome)
        ensures
            final(self)@ == old(self)@.after_cts(cts, now),
            r == old(self)@.cts_outcome(cts, now),
    {
        if !self.pps_enabled {
            return PpsOutcome::NoEdge;
        }
        if cts == self.last_cts {
            return PpsOutcome::NoEdge;
        }
        self.last_cts = cts;
        if !cts {
            return PpsOutcome::NoEdge;
        }
        let interval: u128 = elapsed(self.last_pps_pulse, now);
        self.last_pps_pulse = now;
        if self.pps_count < u64::MAX {
            self.pps_count = self.pps_count + 1;
        }
        let in_range = PPS_MIN_INTERVAL_NANOS <= interval && interval <= PPS_MAX_INTERVAL_NANOS;
        let boundary = match self.last_gps_timestamp {
            Some(fix) => if in_range {
                Some(second_after(fix))
            } else {
                None
            },
            None => None,
        };
        PpsOutcome::Pulse {
            count: self.pps_count,
            boundary,
            out_of_range: !in_range && self.pps_count > 1,
        }
    }

    /// Whole milliseconds since the receiver last sent anything, at most
    /// `u64::MAX`.
    pub fn idle_millis(&self, now: u128) -> (r: u64)
        ensures
            r == crate::stats::Bookkeeper::spec_millis_between(self@.last_rx, now),
    {
        crate::stats::Bookkeeper::millis_between(self.last_rx, now)
    }

    /// Whole seconds since the reader started, at most `u64::MAX`.
    pub fn uptime_secs(&self, now: u128) -> (r: u64)
        ensures
            r == if spec_elapsed(self@.started, now) / 1_000_000_000 > u64::MAX {
                u64::MAX
            } else {
                (spec_elapsed(self@.started, now) / 1_000_000_000) as u64
            },
    {
        let secs: u128 = elapsed(self.started, now) / 1_000_000_000;
        if secs > u64::MAX as u128 {
            u64::MAX
        } else {
            secs as u64
        }
    }

    /// The satellites in view.
    pub fn satellites_in_view(&self) -> (r: Vec<SatelliteInfo>)
        ensures
            r@ == self@.satellites,
    {
        let mut out: Vec<SatelliteInfo> = Vec::new();
        let mut i: usize = 0;
        while i < self.satellites_in_view.len()
            invariant
                i <= self.satellites_in_view.len(),
                out@ == self.satellites_in_view@.subrange(0, i as int),
            decreases self.satellites_in_view.len() - i,
        {
            out.push(self.satellites_in_view[i]);
            proof {
                assert(out@ =~= self.satellites_in_view@.subrange(0, i + 1));
            }
            i += 1;
        }
        proof {
            assert(self.satellites_in_view@.subrange(0, self.satellites_in_view@.len() as int)
                =~= self.satellites_in_view@);
        }
        out
    }

    /// Pulses counted so far.
    pub fn pps_count(&self) -> (r: u64)
        ensures
            r == self@.pps_count,
    {
        self.pps_count
    }

    /// Sentences with a fix counted so far.
    pub fn nmea_count(&self) -> (r: u64)
        ensures
            r == self@.nmea_count,
    {
        self.nmea_count
    }
}

} // verus!
