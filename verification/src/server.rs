//! The request pipeline of the NTP server: admission, decoding,
//! validation, and the synthesis of the reply.
//!
//! The caller owns the socket. It hands each datagram over together with
//! the receive timestamp it took right after the datagram arrived, sends
//! the reply it gets back, and reports how sending went.

use crate::clock::{ClockSource, SystemClock};
use crate::config::Config;
use crate::packet::{
    decode, encode, lemma_codec_round_trip, valid_packet, word_of_octets, be_u32, LeapIndicator,
    NtpError, NtpMode, NtpPacket, NtpTimestamp, PACKET_SIZE,
};
use crate::security::{
    IpAddress, IpFilter, LimiterModel, PacketValidator, RateLimiter, ValidationError,
};
use crate::stats::ClockInfo;
use vstd::prelude::*;

verus! {

/// Receive timeout of the socket, in milliseconds. The loop looks at the
/// shutdown flag once per timeout.
pub const RECEIVE_TIMEOUT_MILLIS: u64 = 500;

/// Request counters.
#[derive(Debug, Clone, Copy, PartialEq, Eq, Structural)]
pub struct ServerStats {
    pub requests_received: u64,
    pub requests_processed: u64,
    pub requests_rejected: u64,
    pub errors: u64,
}

/// A counter after one more event. It stops at `u64::MAX`.
pub open spec fn spec_bump(count: u64) -> u64 {
    if count < u64::MAX {
        (count + 1) as u64
    } else {
        u64::MAX
    }
}

pub fn bump(count: u64) -> (r: u64)
    ensures
        r == spec_bump(count),
{
    if count < u64::MAX {
        count + 1
    } else {
        u64::MAX
    }
}

impl ServerStats {
    pub fn new() -> (r: Self)
        ensures
            r == (ServerStats {
                requests_received: 0,
                requests_processed: 0,
                requests_rejected: 0,
                errors: 0,
            }),
    {
        ServerStats { requests_received: 0, requests_processed: 0, requests_rejected: 0, errors: 0 }
    }
}

impl Default for ServerStats {
    fn default() -> (r: Self)
        ensures
            r == (ServerStats {
                requests_received: 0,
                requests_processed: 0,
                requests_rejected: 0,
                errors: 0,
            }),
    {
        ServerStats::new()
    }
}

/// How receiving a datagram failed.
#[derive(Debug, Clone, Copy, PartialEq, Eq, Structural)]
pub enum ReceiveFailure {
    /// Nothing arrived yet.
    WouldBlock,
    /// Nothing arrived within the timeout.
    TimedOut,
    /// Anything else.
    Other,
}

/// Whether a failure to receive counts as an error. Timeouts do not: they
/// only let the loop look at the shutdown flag.
pub fn counts_as_error(failure: ReceiveFailure) -> (r: bool)
    ensures
        r == (failure == ReceiveFailure::Other),
{
    match failure {
        ReceiveFailure::WouldBlock => false,
        ReceiveFailure::TimedOut => false,
        ReceiveFailure::Other => true,
    }
}

/// What the clock source says of itself when a reply is built.
#[derive(Debug, Clone, Copy)]
pub struct ClockReading {
    pub stratum: u8,
    pub precision: i8,
    pub reference_id: [u8; 4],
    /// The clock's time, used as the reference timestamp.
    pub reference_timestamp: NtpTimestamp,
}

/// Whether every field of `reading` is an answer that `clock` may give.
pub open spec fn told_by<C: ClockSource>(clock: &C, reading: ClockReading) -> bool {
    &&& clock.tells_stratum(reading.stratum)
    &&& clock.tells_precision(reading.precision)
    &&& clock.tells_reference(reading.reference_id)
    &&& clock.tells_time(reading.reference_timestamp)
}

/// Why a datagram gets no reply.
#[derive(Debug, Clone, Copy, PartialEq, Eq, Structural)]
pub enum Rejection {
    /// The source address is denied by the lists.
    IpDenied,
    /// The source address is over its rate.
    RateLimited,
    /// The datagram is no NTP header.
    Malformed(NtpError),
    /// The header is not a request this server answers.
    Invalid(ValidationError),
}

/// The reply to `request`, before its transmit timestamp is set: the
/// request's version and poll, mode server, what the clock says of itself,
/// no root delay or dispersion, the request's transmit timestamp as
/// originate, and `receive_time` as receive.
pub open spec fn spec_response(request: NtpPacket, reading: ClockReading, receive_time: NtpTimestamp)
    -> NtpPacket {
    NtpPacket {
        leap_indicator: LeapIndicator::NoWarning,
        version: request.version,
        mode: NtpMode::Server,
        stratum: reading.stratum,
        poll: request.poll,
        precision: reading.precision,
        root_delay: 0,
        root_dispersion: 0,
        reference_identifier: be_u32(reading.reference_id@, 0),
        reference_timestamp: reading.reference_timestamp,
        originate_timestamp: request.transmit_timestamp,
        receive_timestamp: receive_time,
        transmit_timestamp: NtpTimestamp(0),
    }
}

/// The reply as it is sent: the response with `transmit_time` set.
pub open spec fn spec_reply(
    request: NtpPacket,
    reading: ClockReading,
    receive_time: NtpTimestamp,
    transmit_time: NtpTimestamp,
) -> NtpPacket {
    NtpPacket { transmit_timestamp: transmit_time, ..spec_response(request, reading, receive_time) }
}

/// Builds the reply to `request` from a reading of the clock.
pub fn build_response(request: &NtpPacket, reading: ClockReading, receive_time: NtpTimestamp) -> (r:
    NtpPacket)
    ensures
        r == spec_response(*request, reading, receive_time),
{
    NtpPacket {
        leap_indicator: LeapIndicator::NoWarning,
        version: request.version,
        mode: NtpMode::Server,
        stratum: reading.stratum,
        poll: request.poll,
        precision: reading.precision,
        root_delay: 0,
        root_dispersion: 0,
        reference_identifier: word_of_octets(reading.reference_id),
        reference_timestamp: reading.reference_timestamp,
        originate_timestamp: request.transmit_timestamp,
        receive_timestamp: receive_time,
        transmit_timestamp: NtpTimestamp(0),
    }
}

/// The verdict on a datagram that passed admission: the request it holds,
/// or why it holds none.
pub open spec fn spec_examine(datagram: Seq<u8>) -> Result<NtpPacket, Rejection> {
    match decode(datagram) {
        Ok(request) => match PacketValidator::spec_validate(request) {
            Ok(()) => Ok(request),
            Err(e) => Err(Rejection::Invalid(e)),
        },
        Err(e) => Err(Rejection::Malformed(e)),
    }
}

/// Decodes and validates a datagram.
pub fn examine(datagram: &[u8]) -> (r: Result<NtpPacket, Rejection>)
    ensures
        r == spec_examine(datagram@),
{
    match NtpPacket::from_bytes(datagram) {
        Ok(request) => match PacketValidator::validate_request(&request) {
            Ok(()) => Ok(request),
            Err(e) => Err(Rejection::Invalid(e)),
        },
        Err(e) => Err(Rejection::Malformed(e)),
    }
}

/// The verdict on a datagram from `ip` that arrives at `now`, and the
/// limiter afterwards. The lists are asked first, then the limiter, which
/// therefore never counts a denied address; only then is the datagram
/// read.
pub open spec fn spec_decide(
    whitelist: Seq<IpAddress>,
    blacklist: Seq<IpAddress>,
    limiter: Option<LimiterModel>,
    datagram: Seq<u8>,
    ip: IpAddress,
    now: u128,
) -> (Result<NtpPacket, Rejection>, Option<LimiterModel>) {
    if !IpFilter::spec_allowed(whitelist, blacklist, ip) {
        (Err(Rejection::IpDenied), limiter)
    } else {
        match limiter {
            Some(model) => {
                let (after, admitted) = model.checked(ip, now);
                if admitted {
                    (spec_examine(datagram), Some(after))
                } else {
                    (Err(Rejection::RateLimited), Some(after))
                }
            },
            None => (spec_examine(datagram), None),
        }
    }
}

/// The limiter as a mathematical value, if there is one.
pub open spec fn limiter_model(limiter: Option<RateLimiter>) -> Option<LimiterModel> {
    match limiter {
        Some(limiter) => Some(limiter@),
        None => None,
    }
}

/// Decides on a datagram from `ip` that arrives at `now`.
pub fn decide(
    filter: &IpFilter,
    limiter: &mut Option<RateLimiter>,
    datagram: &[u8],
    ip: IpAddress,
    now: u128,
) -> (r: Result<NtpPacket, Rejection>)
    ensures
        r == spec_decide(
            filter.whitelist@,
            filter.blacklist@,
            limiter_model(*old(limiter)),
            datagram@,
            ip,
            now,
        ).0,
        limiter_model(*final(limiter)) == spec_decide(
            filter.whitelist@,
            filter.blacklist@,
            limiter_model(*old(limiter)),
            datagram@,
            ip,
            now,
        ).1,
{
    if !filter.is_allowed(ip) {
        return Err(Rejection::IpDenied);
    }
    let admitted = match limiter {
        Some(limiter) => limiter.check_rate_limit_at(ip, now),
        None => true,
    };
    if !admitted {
        return Err(Rejection::RateLimited);
    }
    examine(datagram)
}

/// The NTP server's state: its clock, its admission control and its
/// counters.
pub struct NtpServer<C: ClockSource> {
    pub clock: C,
    pub rate_limiter: Option<RateLimiter>,
    pub ip_filter: IpFilter,
    pub stats: ServerStats,
    /// Whether each request is to be logged.
    pub log_requests: bool,
}

impl<C: ClockSource> NtpServer<C> {
    /// A server that answers from `clock`, limits rates as `config` says,
    /// and filters by the two lists.
    pub fn new(config: &Config, clock: C, whitelist: Vec<IpAddress>, blacklist: Vec<IpAddress>) -> (r:
        Self)
        ensures
            r.clock == clock,
            r.ip_filter.whitelist == whitelist,
            r.ip_filter.blacklist == blacklist,
            r.stats == (ServerStats {
                requests_received: 0,
                requests_processed: 0,
                requests_rejected: 0,
                errors: 0,
            }),
            r.log_requests == config.logging.log_requests,
            config.security.enable_rate_limiting ==> (r.rate_limiter matches Some(limiter)
                && limiter@.max_requests_per_second == config.security.max_requests_per_second
                && limiter@.v4 == Map::<u32, crate::security::RateLimitState>::empty() && limiter@.v6
                == Map::<u128, crate::security::RateLimitState>::empty()),
            !config.security.enable_rate_limiting ==> r.rate_limiter is None,
    {
        let rate_limiter = if config.security.enable_rate_limiting {
            Some(RateLimiter::new(config.security.max_requests_per_second))
        } else {
            None
        };
        NtpServer {
            clock,
            rate_limiter,
            ip_filter: IpFilter::new(whitelist, blacklist),
            stats: ServerStats::new(),
            log_requests: config.logging.log_requests,
        }
    }

    /// Asks the clock what it says of itself: each field of the reading is
    /// an answer that the clock may give.
    pub fn read_clock(&self) -> (r: ClockReading)
        ensures
            told_by(&self.clock, r),
    {
        let stratum: u8 = self.clock.stratum();
        let precision: i8 = self.clock.precision();
        let reference_id = self.clock.reference_id();
        let reference_timestamp = self.clock.now();
        ClockReading { stratum, precision, reference_id, reference_timestamp }
    }

    /// Builds the reply to `request`, but for its transmit timestamp.
    /// Stratum, precision, reference identifier and reference timestamp
    /// are whatever the clock says.
    pub fn create_response(&self, request: &NtpPacket, receive_time: NtpTimestamp) -> (r: NtpPacket)
        ensures
            exists|reading: ClockReading|
                told_by(&self.clock, reading) && r == #[trigger] spec_response(
                    *request,
                    reading,
                    receive_time,
                ),
    {
        let reading = self.read_clock();
        let r = build_response(request, reading, receive_time);
        assert(told_by(&self.clock, reading) && r == spec_response(
            *request,
            reading,
            receive_time,
        ));
        r
    }

    /// Handles one datagram from `client_ip`. `receive_time` is the clock's
    /// time taken right after the datagram arrived. The datagram is counted
    /// as received; it is decided on as [`spec_decide`] says, for whatever
    /// the monotonic clock reads; a refusal is counted as rejected. An
    /// accepted request gets a reply in wire form, whose transmit timestamp
    /// is taken from the clock last of all.
    pub fn handle_request(&mut self, datagram: &[u8], client_ip: IpAddress, receive_time: NtpTimestamp)
        -> (r: Result<[u8; 48], Rejection>)
        ensures
            final(self).clock == old(self).clock,
            final(self).ip_filter == old(self).ip_filter,
            final(self).log_requests == old(self).log_requests,
            final(self).stats == (ServerStats {
                requests_received: spec_bump(old(self).stats.requests_received),
                requests_rejected: if r is Err {
                    spec_bump(old(self).stats.requests_rejected)
                } else {
                    old(self).stats.requests_rejected
                },
                ..old(self).stats
            }),
            exists|now: u128|
                ({
                    let decided = #[trigger] spec_decide(
                        old(self).ip_filter.whitelist@,
                        old(self).ip_filter.blacklist@,
                        limiter_model(old(self).rate_limiter),
                        datagram@,
                        client_ip,
                        now,
                    );
                    &&& limiter_model(final(self).rate_limiter) == decided.1
                    &&& match r {
                        Ok(bytes) => (decided.0 matches Ok(request) && exists|
                            reading: ClockReading,
                            transmit_time: NtpTimestamp,
                        |
                            told_by(&old(self).clock, reading) && old(self).clock.tells_time(
                                transmit_time,
                            ) && bytes@ == encode(
                                #[trigger] spec_reply(request, reading, receive_time, transmit_time),
                            )),
                        Err(rejection) => decided.0 == Err::<NtpPacket, Rejection>(rejection),
                    }
                }),
    {
        self.stats.requests_received = bump(self.stats.requests_received);
        let now: u128 = match &self.rate_limiter {
            Some(limiter) => limiter.monotonic_now(),
            None => 0,
        };
        let decided = decide(&self.ip_filter, &mut self.rate_limiter, datagram, client_ip, now);
        proof {
            let model = spec_decide(
                old(self).ip_filter.whitelist@,
                old(self).ip_filter.blacklist@,
                limiter_model(old(self).rate_limiter),
                datagram@,
                client_ip,
                now,
            );
            assert(decided == model.0);
            assert(limiter_model(self.rate_limiter) == model.1);
        }
        match decided {
            Ok(request) => {
                let reading = self.read_clock();
                let response = build_response(&request, reading, receive_time);
                let transmit_time = self.clock.now();
                let mut reply = response;
                reply.transmit_timestamp = transmit_time;
                let bytes = reply.to_bytes();
                proof {
                    assert(reply == spec_reply(request, reading, receive_time, transmit_time));
                    assert(told_by(&old(self).clock, reading));
                    assert(old(self).clock.tells_time(transmit_time));
                }
                Ok(bytes)
            },
            Err(rejection) => {
                self.stats.requests_rejected = bump(self.stats.requests_rejected);
                Err(rejection)
            },
        }
    }

    /// Notes that a reply was sent.
    pub fn record_sent(&mut self)
        ensures
            final(self).stats == (ServerStats {
                requests_processed: spec_bump(old(self).stats.requests_processed),
                ..old(self).stats
            }),
            final(self).clock == old(self).clock,
            final(self).ip_filter == old(self).ip_filter,
            final(self).rate_limiter == old(self).rate_limiter,
            final(self).log_requests == old(self).log_requests,
    {
        self.stats.requests_processed = bump(self.stats.requests_processed);
    }

    /// Notes a failure of the socket. Timeouts are not counted.
    pub fn record_failure(&mut self, failure: ReceiveFailure)
        ensures
            final(self).stats == (ServerStats {
                errors: if failure == ReceiveFailure::Other {
                    spec_bump(old(self).stats.errors)
                } else {
                    old(self).stats.errors
                },
                ..old(self).stats
            }),
            final(self).clock == old(self).clock,
            final(self).ip_filter == old(self).ip_filter,
            final(self).rate_limiter == old(self).rate_limiter,
            final(self).log_requests == old(self).log_requests,
    {
        if counts_as_error(failure) {
            self.stats.errors = bump(self.stats.errors);
        }
    }

    /// What the clock reports of itself, for the monitoring record: the
    /// record of whatever the clock says.
    pub fn clock_info(&self) -> (r: ClockInfo)
        ensures
            exists|timestamp: NtpTimestamp, stratum: u8, reference_id: [u8; 4], precision: i8|
                self.clock.tells_time(timestamp) && self.clock.tells_stratum(stratum)
                    && self.clock.tells_reference(reference_id) && self.clock.tells_precision(
                    precision,
                ) && r == #[trigger] ClockInfo::spec_of_reading(
                    timestamp,
                    stratum,
                    reference_id,
                    precision,
                ),
            r.current_fraction_ns < 1_000_000_000,
    {
        let timestamp = self.clock.now();
        let stratum: u8 = self.clock.stratum();
        let reference_id = self.clock.reference_id();
        let precision: i8 = self.clock.precision();
        let r = ClockInfo::of_reading(timestamp, stratum, reference_id, precision);
        assert(self.clock.tells_time(timestamp) && self.clock.tells_stratum(stratum)
            && self.clock.tells_reference(reference_id) && self.clock.tells_precision(precision)
            && r == ClockInfo::spec_of_reading(timestamp, stratum, reference_id, precision));
        r
    }

    /// The request counters.
    pub fn stats(&self) -> (r: &ServerStats)
        ensures
            *r == self.stats,
    {
        &self.stats
    }
}

/// Response law: the reply to a request echoes the request's transmit
/// timestamp as originate, has the mode server, carries the two readings of
/// the clock as receive and transmit, in that order whenever the clock read
/// them in that order, and is 48 octets long on the wire. Where the
/// request's version lies in 1..=4, decoding the wire form gives the reply
/// back.
pub proof fn lemma_response_law(
    request: NtpPacket,
    reading: ClockReading,
    receive_time: NtpTimestamp,
    transmit_time: NtpTimestamp,
)
    requires
        receive_time.0 <= transmit_time.0,
    ensures
        ({
            let reply = spec_reply(request, reading, receive_time, transmit_time);
            &&& reply.originate_timestamp == request.transmit_timestamp
            &&& reply.mode == NtpMode::Server
            &&& reply.version == request.version
            &&& reply.receive_timestamp == receive_time
            &&& reply.transmit_timestamp == transmit_time
            &&& reply.receive_timestamp.0 <= reply.transmit_timestamp.0
            &&& encode(reply).len() == PACKET_SIZE
            &&& valid_packet(request) ==> decode(encode(reply)) == Ok::<NtpPacket, NtpError>(reply)
        }),
{
    let reply = spec_reply(request, reading, receive_time, transmit_time);
    crate::packet::lemma_encode_layout(reply);
    if valid_packet(request) {
        lemma_codec_round_trip(reply);
    }
}

/// A server on the system clock answers as unsynchronised: whatever the
/// clock reads, its reply has the stratum 16, the reference "LOCL" and the
/// system clock's precision.
pub proof fn lemma_system_clock_reply(
    request: NtpPacket,
    reading: ClockReading,
    receive_time: NtpTimestamp,
    transmit_time: NtpTimestamp,
)
    requires
        told_by(&SystemClock, reading),
    ensures
        ({
            let reply = spec_reply(request, reading, receive_time, transmit_time);
            &&& reply.stratum == 16
            &&& reply.reference_identifier == 0x4C4F_434C
            &&& reply.precision == -24
        }),
{
    assert(reading.reference_id == crate::clock::REFERENCE_LOCAL);
    assert(reading.reference_id@[0] == 0x4C);
    assert(reading.reference_id@[1] == 0x4F);
    assert(reading.reference_id@[2] == 0x43);
    assert(reading.reference_id@[3] == 0x4C);
}

/// Every request that passes examination has a version from 1 to 4, the
/// mode client, a transmit timestamp that is set and a stratum below 16.
pub proof fn lemma_examined_request(datagram: Seq<u8>)
    ensures
        spec_examine(datagram) matches Ok(request) ==> (valid_packet(request) && request.mode
            == NtpMode::Client && request.transmit_timestamp.0 != 0 && request.stratum < 16),
{
}

} // verus!
