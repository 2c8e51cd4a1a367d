//! NTP wire format: the 48-octet header, its 64-bit timestamps, and the
//! encoder and decoder between them.
//!
//! The layout is described once, by the spec functions [`encode`] and
//! [`decode`] over sequences of octets. The executable codec is proved
//! against them, and [`lemma_codec_round_trip`] shows that decoding undoes
//! encoding.

use vstd::prelude::*;
use vstd::std_specs::convert::FromSpecImpl;

verus! {

/// Seconds between the NTP epoch (1900-01-01) and the Unix epoch (1970-01-01).
pub const NTP_UNIX_OFFSET: u64 = 2_208_988_800;

/// Length of an NTP header on the wire.
pub const PACKET_SIZE: usize = 48;

/// Why a datagram could not be read as an NTP header.
#[derive(Debug, Clone, Copy, PartialEq, Eq, Structural)]
pub enum NtpError {
    InvalidSize { expected: usize, actual: usize },
    InvalidVersion(u8),
    InvalidMode(u8),
    InvalidStratum(u8),
}

/// The two-bit leap indicator.
#[derive(Debug, Clone, Copy, PartialEq, Eq, Structural)]
pub enum LeapIndicator {
    NoWarning,
    LastMinute61Seconds,
    LastMinute59Seconds,
    AlarmCondition,
}

impl LeapIndicator {
    /// The indicator's value on the wire.
    pub open spec fn code(self) -> u8 {
        match self {
            LeapIndicator::NoWarning => 0,
            LeapIndicator::LastMinute61Seconds => 1,
            LeapIndicator::LastMinute59Seconds => 2,
            LeapIndicator::AlarmCondition => 3,
        }
    }

    /// The indicator that the two low bits of `value` stand for.
    pub open spec fn of_code(value: u8) -> LeapIndicator {
        if value % 4 == 0 {
            LeapIndicator::NoWarning
        } else if value % 4 == 1 {
            LeapIndicator::LastMinute61Seconds
        } else if value % 4 == 2 {
            LeapIndicator::LastMinute59Seconds
        } else {
            LeapIndicator::AlarmCondition
        }
    }

    pub fn to_u8(self) -> (r: u8)
        ensures
            r == self.code(),
            r < 4,
    {
        match self {
            LeapIndicator::NoWarning => 0,
            LeapIndicator::LastMinute61Seconds => 1,
            LeapIndicator::LastMinute59Seconds => 2,
            LeapIndicator::AlarmCondition => 3,
        }
    }
}

impl From<u8> for LeapIndicator {
    fn from(value: u8) -> (r: Self) {
        let low: u8 = value & 0b11;
        assert(low == value % 4) by (bit_vector)
            requires
                low == value & 0b11,
        ;
        if low == 0 {
            LeapIndicator::NoWarning
        } else if low == 1 {
            LeapIndicator::LastMinute61Seconds
        } else if low == 2 {
            LeapIndicator::LastMinute59Seconds
        } else {
            LeapIndicator::AlarmCondition
        }
    }
}

impl FromSpecImpl<u8> for LeapIndicator {
    open spec fn obeys_from_spec() -> bool {
        true
    }

    open spec fn from_spec(value: u8) -> Self {
        LeapIndicator::of_code(value)
    }
}

/// The three-bit association mode.
#[derive(Debug, Clone, Copy, PartialEq, Eq, Structural)]
pub enum NtpMode {
    Reserved,
    SymmetricActive,
    SymmetricPassive,
    Client,
    Server,
    Broadcast,
    NtpControlMessage,
    ReservedPrivate,
}

impl NtpMode {
    /// The mode's value on the wire.
    pub open spec fn code(self) -> u8 {
        match self {
            NtpMode::Reserved => 0,
            NtpMode::SymmetricActive => 1,
            NtpMode::SymmetricPassive => 2,
            NtpMode::Client => 3,
            NtpMode::Server => 4,
            NtpMode::Broadcast => 5,
            NtpMode::NtpControlMessage => 6,
            NtpMode::ReservedPrivate => 7,
        }
    }

    /// The mode that the three low bits of `value` stand for.
    pub open spec fn of_code(value: u8) -> NtpMode {
        let low = value % 8;
        if low == 0 {
            NtpMode::Reserved
        } else if low == 1 {
            NtpMode::SymmetricActive
        } else if low == 2 {
            NtpMode::SymmetricPassive
        } else if low == 3 {
            NtpMode::Client
        } else if low == 4 {
            NtpMode::Server
        } else if low == 5 {
            NtpMode::Broadcast
        } else if low == 6 {
            NtpMode::NtpControlMessage
        } else {
            NtpMode::ReservedPrivate
        }
    }

    pub fn to_u8(self) -> (r: u8)
        ensures
            r == self.code(),
            r < 8,
    {
        match self {
            NtpMode::Reserved => 0,
            NtpMode::SymmetricActive => 1,
            NtpMode::SymmetricPassive => 2,
            NtpMode::Client => 3,
            NtpMode::Server => 4,
            NtpMode::Broadcast => 5,
            NtpMode::NtpControlMessage => 6,
            NtpMode::ReservedPrivate => 7,
        }
    }

    /// Reads a mode from the three low bits of `value`; the higher bits are
    /// ignored, so every octet names a mode.
    pub fn from_u8(value: u8) -> (r: Result<Self, NtpError>)
        ensures
            r == Ok::<NtpMode, NtpError>(NtpMode::of_code(value)),
    {
        let low: u8 = value & 0x07;
        assert(low == value % 8) by (bit_vector)
            requires
                low == value & 0x07,
        ;
        if low == 0 {
            Ok(NtpMode::Reserved)
        } else if low == 1 {
            Ok(NtpMode::SymmetricActive)
        } else if low == 2 {
            Ok(NtpMode::SymmetricPassive)
        } else if low == 3 {
            Ok(NtpMode::Client)
        } else if low == 4 {
            Ok(NtpMode::Server)
        } else if low == 5 {
            Ok(NtpMode::Broadcast)
        } else if low == 6 {
            Ok(NtpMode::NtpControlMessage)
        } else {
            Ok(NtpMode::ReservedPrivate)
        }
    }
}

/// A 64-bit NTP timestamp: seconds since 1900 in the upper half, a binary
/// fraction of a second in the lower half. Zero stands for "unset".
#[derive(Debug, Clone, Copy, PartialEq, Eq, Structural)]
pub struct NtpTimestamp(pub u64);

/// The eight octets of `x` in the opposite order.
pub open spec fn swap_octets(x: u64) -> u64 {
    let b = be_octets_u64(x);
    (b[7] * 0x100_0000_0000_0000 + b[6] * 0x1_0000_0000_0000 + b[5] * 0x100_0000_0000 + b[4]
        * 0x1_0000_0000 + b[3] * 0x100_0000 + b[2] * 0x1_0000 + b[1] * 0x100 + b[0]) as u64
}

/// `u64::to_be` gives the value whose bytes in memory are the big-endian
/// octets of `x`: `x` itself on a big-endian machine, `x` with its octets
/// reversed on a little-endian one.
pub assume_specification[ u64::to_be ](x: u64) -> (r: u64)
    ensures
        r == x || r == swap_octets(x),
;

/// `u64::from_be` reads `x` as big-endian: `x` itself on a big-endian
/// machine, `x` with its octets reversed on a little-endian one.
pub assume_specification[ u64::from_be ](x: u64) -> (r: u64)
    ensures
        r == x || r == swap_octets(x),
;

impl Default for NtpTimestamp {
    fn default() -> (r: Self)
        ensures
            r == NtpTimestamp(0),
    {
        NtpTimestamp(0)
    }
}

impl NtpTimestamp {
    /// The whole seconds since the NTP epoch.
    pub open spec fn spec_seconds(self) -> u32 {
        (self.0 / 0x1_0000_0000) as u32
    }

    /// The fraction of a second, in units of 2^-32 s.
    pub open spec fn spec_fraction(self) -> u32 {
        (self.0 % 0x1_0000_0000) as u32
    }

    /// The timestamp assembled bit by bit: the seconds shifted into the upper
    /// half, the scaled nanoseconds laid over it.
    pub open spec fn spec_from_seconds_and_nanos(seconds: u64, nanos: u32) -> NtpTimestamp {
        NtpTimestamp((seconds << 32u64) | (((nanos as u64) << 32u64) / 1_000_000_000))
    }

    /// The timestamp of a Unix time.
    pub open spec fn spec_from_unix(secs: u64, nanos: u32) -> NtpTimestamp {
        Self::spec_from_seconds_and_nanos(((secs + NTP_UNIX_OFFSET) % 0x1_0000_0000) as u64, nanos)
    }

    /// The Unix time of a timestamp: seconds since 1970, negative before it,
    /// and nanoseconds.
    pub open spec fn spec_to_unix(self) -> (i64, u32) {
        (
            (self.spec_seconds() - NTP_UNIX_OFFSET) as i64,
            ((self.spec_fraction() * 1_000_000_000) / 0x1_0000_0000) as u32,
        )
    }

    /// Builds a timestamp from seconds and nanoseconds since the NTP epoch.
    /// Only the low 32 bits of `seconds` fit; below one second of `nanos`
    /// the two halves do not overlap.
    pub fn from_seconds_and_nanos(seconds: u64, nanos: u32) -> (r: Self)
        ensures
            r == Self::spec_from_seconds_and_nanos(seconds, nanos),
            nanos < 1_000_000_000 ==> r.spec_seconds() == seconds % 0x1_0000_0000
                && r.spec_fraction() == (nanos * 0x1_0000_0000) / 1_000_000_000,
    {
        let fraction: u64 = ((nanos as u64) << 32u64) / 1_000_000_000;
        let r = NtpTimestamp((seconds << 32u64) | fraction);
        proof {
            lemma_timestamp_halves(seconds, nanos);
        }
        r
    }

    /// Builds a timestamp from a Unix time by adding the epoch offset.
    pub fn from_unix(secs: u64, nanos: u32) -> (r: Self)
        ensures
            r == Self::spec_from_unix(secs, nanos),
            nanos < 1_000_000_000 ==> r.spec_seconds() == (secs + NTP_UNIX_OFFSET) % 0x1_0000_0000
                && r.spec_fraction() == (nanos * 0x1_0000_0000) / 1_000_000_000,
    {
        let low: u64 = secs % 0x1_0000_0000;
        let shifted: u64 = (low + NTP_UNIX_OFFSET) % 0x1_0000_0000;
        Self::from_seconds_and_nanos(shifted, nanos)
    }

    /// Returns the Unix time of this timestamp.
    pub fn to_unix(&self) -> (r: (i64, u32))
        ensures
            r == self.spec_to_unix(),
            r.1 < 1_000_000_000,
    {
        let seconds: u32 = self.seconds();
        let fraction: u32 = self.fraction();
        let secs: i64 = seconds as i64 - NTP_UNIX_OFFSET as i64;
        let scaled: u64 = fraction as u64 * 1_000_000_000;
        let nanos: u64 = scaled >> 32u64;
        assert(nanos == scaled / 0x1_0000_0000) by (bit_vector)
            requires
                nanos == scaled >> 32u64,
        ;
        (secs, nanos as u32)
    }

    /// Converts the timestamp to its big-endian form for the wire.
    pub fn to_be(self) -> (r: u64)
        ensures
            r == self.0 || r == swap_octets(self.0),
    {
        self.0.to_be()
    }

    /// Builds a timestamp from a value read in big-endian form.
    pub fn from_be(value: u64) -> (r: Self)
        ensures
            r.0 == value || r.0 == swap_octets(value),
    {
        NtpTimestamp(u64::from_be(value))
    }

    /// Returns the seconds half.
    pub fn seconds(&self) -> (r: u32)
        ensures
            r == self.spec_seconds(),
    {
        let x: u64 = self.0;
        let high: u64 = x >> 32u64;
        assert(high == x / 0x1_0000_0000 && high < 0x1_0000_0000) by (bit_vector)
            requires
                high == x >> 32u64,
        ;
        high as u32
    }

    /// Returns the fraction half.
    pub fn fraction(&self) -> (r: u32)
        ensures
            r == self.spec_fraction(),
    {
        let x: u64 = self.0;
        let low: u64 = x & 0xFFFF_FFFF;
        assert(low == x % 0x1_0000_0000) by (bit_vector)
            requires
                low == x & 0xFFFF_FFFF,
        ;
        low as u32
    }
}

/// Below one second of nanoseconds the two halves of an assembled timestamp
/// are the seconds modulo 2^32 and the nanoseconds scaled to 2^-32 s.
pub proof fn lemma_timestamp_halves(seconds: u64, nanos: u32)
    ensures
        nanos < 1_000_000_000 ==> ({
            let t = NtpTimestamp::spec_from_seconds_and_nanos(seconds, nanos);
            &&& t.spec_seconds() == seconds % 0x1_0000_0000
            &&& t.spec_fraction() == (nanos * 0x1_0000_0000) / 1_000_000_000
        }),
{
    if nanos < 1_000_000_000 {
        let wide: u64 = nanos as u64;
        let scaled: u64 = wide << 32u64;
        let f: u64 = scaled / 1_000_000_000;
        let bits: u64 = (seconds << 32u64) | f;
        assert(scaled == wide * 0x1_0000_0000) by (bit_vector)
            requires
                wide < 1_000_000_000,
                scaled == wide << 32u64,
        ;
        assert(f < 0x1_0000_0000);
        assert(bits / 0x1_0000_0000 == seconds % 0x1_0000_0000 && bits % 0x1_0000_0000 == f)
            by (bit_vector)
            requires
                f < 0x1_0000_0000,
                bits == (seconds << 32u64) | f,
        ;
    }
}

/// Reading a Unix time back from its timestamp gives the same second and a
/// nanosecond count that is the same or one less, for every Unix time
/// whose NTP second fits in 32 bits.
pub proof fn lemma_unix_round_trip(secs: u64, nanos: u32)
    requires
        nanos < 1_000_000_000,
        secs + NTP_UNIX_OFFSET < 0x1_0000_0000,
    ensures
        NtpTimestamp::spec_from_unix(secs, nanos).spec_to_unix().0 == secs,
        nanos - 1 <= NtpTimestamp::spec_from_unix(secs, nanos).spec_to_unix().1 <= nanos,
{
    lemma_timestamp_halves((secs + NTP_UNIX_OFFSET) as u64, nanos);
}

/// Taking a timestamp to Unix time and back keeps its second and lowers its
/// fraction by at most five units of 2^-32 s, a little over one nanosecond.
pub proof fn lemma_unix_round_trip_twice(secs: u64, nanos: u32)
    requires
        nanos < 1_000_000_000,
        secs + NTP_UNIX_OFFSET < 0x1_0000_0000,
    ensures
        ({
            let first = NtpTimestamp::spec_from_unix(secs, nanos);
            let unix = first.spec_to_unix();
            let again = NtpTimestamp::spec_from_unix(unix.0 as u64, unix.1);
            &&& again.spec_seconds() == first.spec_seconds()
            &&& first.spec_fraction() - 5 <= again.spec_fraction() <= first.spec_fraction()
        }),
{
    lemma_unix_round_trip(secs, nanos);
    let first = NtpTimestamp::spec_from_unix(secs, nanos);
    let unix = first.spec_to_unix();
    lemma_timestamp_halves((secs + NTP_UNIX_OFFSET) as u64, nanos);
    lemma_timestamp_halves((secs + NTP_UNIX_OFFSET) as u64, unix.1);
}

/// An NTP header.
#[derive(Debug, Clone, Copy, PartialEq, Eq, Structural)]
pub struct NtpPacket {
    pub leap_indicator: LeapIndicator,
    pub version: u8,
    pub mode: NtpMode,
    pub stratum: u8,
    pub poll: i8,
    pub precision: i8,
    pub root_delay: u32,
    pub root_dispersion: u32,
    pub reference_identifier: u32,
    pub reference_timestamp: NtpTimestamp,
    pub originate_timestamp: NtpTimestamp,
    pub receive_timestamp: NtpTimestamp,
    pub transmit_timestamp: NtpTimestamp,
}

/// The octet that carries a signed value in two's complement.
pub open spec fn octet_of(x: i8) -> u8 {
    if x < 0 {
        (x + 256) as u8
    } else {
        x as u8
    }
}

/// The signed value that an octet carries in two's complement.
pub open spec fn signed_of(b: u8) -> i8 {
    if b >= 128 {
        (b - 256) as i8
    } else {
        b as i8
    }
}

/// The four octets of `x`, most significant first.
pub open spec fn be_octets_u32(x: u32) -> Seq<u8> {
    seq![
        (x / 0x100_0000) as u8,
        ((x / 0x1_0000) % 0x100) as u8,
        ((x / 0x100) % 0x100) as u8,
        (x % 0x100) as u8,
    ]
}

/// The eight octets of `x`, most significant first.
pub open spec fn be_octets_u64(x: u64) -> Seq<u8> {
    be_octets_u32((x / 0x1_0000_0000) as u32) + be_octets_u32((x % 0x1_0000_0000) as u32)
}

/// The 32-bit value whose big-endian octets start at `at`.
pub open spec fn be_u32(bytes: Seq<u8>, at: int) -> u32 {
    (bytes[at] * 0x100_0000 + bytes[at + 1] * 0x1_0000 + bytes[at + 2] * 0x100 + bytes[at
        + 3]) as u32
}

/// The 64-bit value whose big-endian octets start at `at`.
pub open spec fn be_u64(bytes: Seq<u8>, at: int) -> u64 {
    (be_u32(bytes, at) * 0x1_0000_0000 + be_u32(bytes, at + 4)) as u64
}

/// The first octet: leap indicator, version and mode packed as 2, 3 and 3 bits.
pub open spec fn first_octet(p: NtpPacket) -> u8 {
    (p.leap_indicator.code() * 64 + (p.version % 8) * 8 + p.mode.code()) as u8
}

/// The version number carried in a first octet.
pub open spec fn version_of(first: u8) -> u8 {
    (first / 8) % 8
}

/// The wire form of a header: 48 octets, multi-octet fields big-endian.
pub open spec fn encode(p: NtpPacket) -> Seq<u8> {
    seq![first_octet(p), p.stratum, octet_of(p.poll), octet_of(p.precision)] + be_octets_u32(
        p.root_delay,
    ) + be_octets_u32(p.root_dispersion) + be_octets_u32(p.reference_identifier) + be_octets_u64(
        p.reference_timestamp.0,
    ) + be_octets_u64(p.originate_timestamp.0) + be_octets_u64(p.receive_timestamp.0)
        + be_octets_u64(p.transmit_timestamp.0)
}

/// The header that the first 48 octets of `bytes` hold. Anything after them
/// is ignored.
pub open spec fn decoded(bytes: Seq<u8>) -> NtpPacket {
    NtpPacket {
        leap_indicator: LeapIndicator::of_code(bytes[0] / 64),
        version: version_of(bytes[0]),
        mode: NtpMode::of_code(bytes[0]),
        stratum: bytes[1],
        poll: signed_of(bytes[2]),
        precision: signed_of(bytes[3]),
        root_delay: be_u32(bytes, 4),
        root_dispersion: be_u32(bytes, 8),
        reference_identifier: be_u32(bytes, 12),
        reference_timestamp: NtpTimestamp(be_u64(bytes, 16)),
        originate_timestamp: NtpTimestamp(be_u64(bytes, 24)),
        receive_timestamp: NtpTimestamp(be_u64(bytes, 32)),
        transmit_timestamp: NtpTimestamp(be_u64(bytes, 40)),
    }
}

/// What reading a datagram gives: a header, or the reason it holds none.
pub open spec fn decode(bytes: Seq<u8>) -> Result<NtpPacket, NtpError> {
    if bytes.len() < PACKET_SIZE {
        Err(NtpError::InvalidSize { expected: PACKET_SIZE, actual: bytes.len() as usize })
    } else if version_of(bytes[0]) < 1 || version_of(bytes[0]) > 4 {
        Err(NtpError::InvalidVersion(version_of(bytes[0])))
    } else {
        Ok(decoded(bytes))
    }
}

/// A header that the encoder keeps whole: its version is one the decoder
/// accepts.
pub open spec fn valid_packet(p: NtpPacket) -> bool {
    1 <= p.version <= 4
}

fn signed_octet(b: u8) -> (r: i8)
    ensures
        r == signed_of(b),
{
    if b >= 128 {
        (b as i16 - 256) as i8
    } else {
        b as i8
    }
}

fn unsigned_octet(x: i8) -> (r: u8)
    ensures
        r == octet_of(x),
{
    if x < 0 {
        (x as i16 + 256) as u8
    } else {
        x as u8
    }
}

/// The 32-bit value of four octets, most significant first.
pub fn word_of_octets(octets: [u8; 4]) -> (r: u32)
    ensures
        r == be_u32(octets@, 0),
{
    let b0: u32 = octets[0] as u32;
    let b1: u32 = octets[1] as u32;
    let b2: u32 = octets[2] as u32;
    let b3: u32 = octets[3] as u32;
    let r: u32 = (b0 << 24u32) | (b1 << 16u32) | (b2 << 8u32) | b3;
    assert(r == b0 * 0x100_0000 + b1 * 0x1_0000 + b2 * 0x100 + b3) by (bit_vector)
        requires
            b0 < 256,
            b1 < 256,
            b2 < 256,
            b3 < 256,
            r == (b0 << 24u32) | (b1 << 16u32) | (b2 << 8u32) | b3,
    ;
    r
}

fn read_be_u32(bytes: &[u8], at: usize) -> (r: u32)
    requires
        at <= 44,
        at + 4 <= bytes@.len(),
    ensures
        r == be_u32(bytes@, at as int),
{
    let b0: u32 = bytes[at] as u32;
    let b1: u32 = bytes[at + 1] as u32;
    let b2: u32 = bytes[at + 2] as u32;
    let b3: u32 = bytes[at + 3] as u32;
    let r: u32 = (b0 << 24u32) | (b1 << 16u32) | (b2 << 8u32) | b3;
    assert(r == b0 * 0x100_0000 + b1 * 0x1_0000 + b2 * 0x100 + b3) by (bit_vector)
        requires
            b0 < 256,
            b1 < 256,
            b2 < 256,
            b3 < 256,
            r == (b0 << 24u32) | (b1 << 16u32) | (b2 << 8u32) | b3,
    ;
    r
}

fn read_be_u64(bytes: &[u8], at: usize) -> (r: u64)
    requires
        at <= 40,
        at + 8 <= bytes@.len(),
    ensures
        r == be_u64(bytes@, at as int),
{
    let high: u64 = read_be_u32(bytes, at) as u64;
    let low: u64 = read_be_u32(bytes, at + 4) as u64;
    let r: u64 = (high << 32u64) | low;
    assert(r == high * 0x1_0000_0000 + low) by (bit_vector)
        requires
            high < 0x1_0000_0000,
            low < 0x1_0000_0000,
            r == (high << 32u64) | low,
    ;
    r
}

fn write_be_u32(out: &mut [u8; 48], at: usize, x: u32)
    requires
        at + 4 <= 48,
    ensures
        forall|i: int| 0 <= i < 48 && !(at <= i < at + 4) ==> final(out)@[i] == old(out)@[i],
        forall|i: int| 0 <= i < 4 ==> final(out)@[at + i] == be_octets_u32(x)[i],
{
    let b0: u32 = x >> 24u32;
    let b1: u32 = (x >> 16u32) & 0xFF;
    let b2: u32 = (x >> 8u32) & 0xFF;
    let b3: u32 = x & 0xFF;
    assert(b0 == x / 0x100_0000 && b0 < 256 && b1 == (x / 0x1_0000) % 0x100 && b2 == (x / 0x100)
        % 0x100 && b3 == x % 0x100) by (bit_vector)
        requires
            b0 == x >> 24u32,
            b1 == (x >> 16u32) & 0xFF,
            b2 == (x >> 8u32) & 0xFF,
            b3 == x & 0xFF,
    ;
    out[at] = b0 as u8;
    out[at + 1] = b1 as u8;
    out[at + 2] = b2 as u8;
    out[at + 3] = b3 as u8;
}

fn write_be_u64(out: &mut [u8; 48], at: usize, x: u64)
    requires
        at + 8 <= 48,
    ensures
        forall|i: int| 0 <= i < 48 && !(at <= i < at + 8) ==> final(out)@[i] == old(out)@[i],
        forall|i: int| 0 <= i < 8 ==> final(out)@[at + i] == be_octets_u64(x)[i],
{
    let high: u64 = x >> 32u64;
    let low: u64 = x & 0xFFFF_FFFF;
    assert(high == x / 0x1_0000_0000 && high < 0x1_0000_0000 && low == x % 0x1_0000_0000)
        by (bit_vector)
        requires
            high == x >> 32u64,
            low == x & 0xFFFF_FFFF,
    ;
    write_be_u32(out, at, high as u32);
    write_be_u32(out, at + 4, low as u32);
    assert forall|i: int| 0 <= i < 8 implies out@[at + i] == be_octets_u64(x)[i] by {
        if i < 4 {
            assert(out@[at + i] == be_octets_u32(high as u32)[i]);
        } else {
            assert(out@[at + 4 + (i - 4)] == be_octets_u32(low as u32)[i - 4]);
        }
    }
}

impl NtpPacket {
    /// Length of the header in octets.
    pub const SIZE: usize = 48;

    /// The header a primary server starts its reply from: version 4, mode
    /// server, stratum 1, reference "GPS", every timestamp unset.
    pub fn new_server_response() -> (r: Self)
        ensures
            r == (NtpPacket {
                leap_indicator: LeapIndicator::NoWarning,
                version: 4,
                mode: NtpMode::Server,
                stratum: 1,
                poll: 4,
                precision: (-20) as i8,
                root_delay: 0,
                root_dispersion: 0,
                reference_identifier: 0x4750_5300,
                reference_timestamp: NtpTimestamp(0),
                originate_timestamp: NtpTimestamp(0),
                receive_timestamp: NtpTimestamp(0),
                transmit_timestamp: NtpTimestamp(0),
            }),
    {
        NtpPacket {
            leap_indicator: LeapIndicator::NoWarning,
            version: 4,
            mode: NtpMode::Server,
            stratum: 1,
            poll: 4,
            precision: -20,
            root_delay: 0,
            root_dispersion: 0,
            reference_identifier: 0x4750_5300,
            reference_timestamp: NtpTimestamp(0),
            originate_timestamp: NtpTimestamp(0),
            receive_timestamp: NtpTimestamp(0),
            transmit_timestamp: NtpTimestamp(0),
        }
    }

    /// Reads a header from a datagram. Fewer than 48 octets give
    /// `InvalidSize`, a version outside 1..=4 gives `InvalidVersion`;
    /// every other datagram is read, and octets past the header are ignored.
    pub fn from_bytes(bytes: &[u8]) -> (r: Result<Self, NtpError>)
        ensures
            r == decode(bytes@),
    {
        if bytes.len() < 48 {
            return Err(NtpError::InvalidSize { expected: 48, actual: bytes.len() });
        }
        let first: u8 = bytes[0];
        let li_bits: u8 = (first >> 6u8) & 0x03;
        let version: u8 = (first >> 3u8) & 0x07;
        assert(li_bits == first / 64 && version == (first / 8) % 8) by (bit_vector)
            requires
                li_bits == (first >> 6u8) & 0x03,
                version == (first >> 3u8) & 0x07,
        ;
        let leap_indicator = LeapIndicator::from(li_bits);
        let mode = match NtpMode::from_u8(first & 0x07) {
            Ok(m) => m,
            Err(e) => {
                return Err(e);
            },
        };
        assert(NtpMode::of_code(first & 0x07) == NtpMode::of_code(first)) by {
            let low: u8 = first & 0x07;
            assert(low % 8 == first % 8) by (bit_vector)
                requires
                    low == first & 0x07,
            ;
        }
        if version < 1 || version > 4 {
            return Err(NtpError::InvalidVersion(version));
        }
        let poll_octet: u8 = bytes[2];
        let precision_octet: u8 = bytes[3];
        let poll: i8 = signed_octet(poll_octet);
        let precision: i8 = signed_octet(precision_octet);
        Ok(
            NtpPacket {
                leap_indicator,
                version,
                mode,
                stratum: bytes[1],
                poll,
                precision,
                root_delay: read_be_u32(bytes, 4),
                root_dispersion: read_be_u32(bytes, 8),
                reference_identifier: read_be_u32(bytes, 12),
                reference_timestamp: NtpTimestamp(read_be_u64(bytes, 16)),
                originate_timestamp: NtpTimestamp(read_be_u64(bytes, 24)),
                receive_timestamp: NtpTimestamp(read_be_u64(bytes, 32)),
                transmit_timestamp: NtpTimestamp(read_be_u64(bytes, 40)),
            },
        )
    }

    /// Writes the header in wire form.
    pub fn to_bytes(&self) -> (r: [u8; 48])
        ensures
            r@ == encode(*self),
    {
        let mut bytes: [u8; 48] = [0u8; 48];
        let li: u8 = self.leap_indicator.to_u8();
        let vn: u8 = self.version & 0x07;
        let md: u8 = self.mode.to_u8() & 0x07;
        let first: u8 = (li << 6u8) | (vn << 3u8) | md;
        let version: u8 = self.version;
        let mode_code: u8 = self.mode.to_u8();
        assert(first == li * 64 + (version % 8) * 8 + mode_code) by (bit_vector)
            requires
                li < 4,
                mode_code < 8,
                vn == version & 0x07,
                md == mode_code & 0x07,
                first == (li << 6u8) | (vn << 3u8) | md,
        ;
        let poll: i8 = self.poll;
        let precision: i8 = self.precision;
        let poll_octet: u8 = unsigned_octet(poll);
        let precision_octet: u8 = unsigned_octet(precision);
        bytes[0] = first;
        bytes[1] = self.stratum;
        bytes[2] = poll_octet;
        bytes[3] = precision_octet;
        write_be_u32(&mut bytes, 4, self.root_delay);
        write_be_u32(&mut bytes, 8, self.root_dispersion);
        write_be_u32(&mut bytes, 12, self.reference_identifier);
        write_be_u64(&mut bytes, 16, self.reference_timestamp.0);
        write_be_u64(&mut bytes, 24, self.originate_timestamp.0);
        write_be_u64(&mut bytes, 32, self.receive_timestamp.0);
        write_be_u64(&mut bytes, 40, self.transmit_timestamp.0);
        proof {
            let want = encode(*self);
            assert(want.len() == 48);
            assert forall|i: int| 0 <= i < 48 implies bytes@[i] == want[i] by {
                if i < 4 {
                } else if i < 8 {
                    assert(bytes@[4 + (i - 4)] == be_octets_u32(self.root_delay)[i - 4]);
                } else if i < 12 {
                    assert(bytes@[8 + (i - 8)] == be_octets_u32(self.root_dispersion)[i - 8]);
                } else if i < 16 {
                    assert(bytes@[12 + (i - 12)] == be_octets_u32(self.reference_identifier)[i
                        - 12]);
                } else if i < 24 {
                    assert(bytes@[16 + (i - 16)] == be_octets_u64(self.reference_timestamp.0)[i
                        - 16]);
                } else if i < 32 {
                    assert(bytes@[24 + (i - 24)] == be_octets_u64(self.originate_timestamp.0)[i
                        - 24]);
                } else if i < 40 {
                    assert(bytes@[32 + (i - 32)] == be_octets_u64(self.receive_timestamp.0)[i
                        - 32]);
                } else {
                    assert(bytes@[40 + (i - 40)] == be_octets_u64(self.transmit_timestamp.0)[i
                        - 40]);
                }
            }
            assert(bytes@ =~= want);
        }
        bytes
    }

    /// Whether the header is a request this server would answer: mode
    /// client, version 3 or 4, and a transmit timestamp that is set.
    pub fn is_valid_client_request(&self) -> (r: bool)
        ensures
            r == (self.mode == NtpMode::Client && 3 <= self.version <= 4
                && self.transmit_timestamp.0 != 0),
    {
        self.mode == NtpMode::Client && self.version >= 3 && self.version <= 4
            && self.transmit_timestamp.0 != 0
    }
}

/// Four octets written big-endian read back as the value they came from.
pub proof fn lemma_be_u32_round_trip(x: u32, bytes: Seq<u8>, at: int)
    requires
        0 <= at,
        at + 4 <= bytes.len(),
        forall|i: int| 0 <= i < 4 ==> bytes[at + i] == #[trigger] be_octets_u32(x)[i],
    ensures
        be_u32(bytes, at) == x,
{
    assert(bytes[at + 0] == be_octets_u32(x)[0]);
    assert(bytes[at + 1] == be_octets_u32(x)[1]);
    assert(bytes[at + 2] == be_octets_u32(x)[2]);
    assert(bytes[at + 3] == be_octets_u32(x)[3]);
}

/// Eight octets written big-endian read back as the value they came from.
pub proof fn lemma_be_u64_round_trip(x: u64, bytes: Seq<u8>, at: int)
    requires
        0 <= at,
        at + 8 <= bytes.len(),
        forall|i: int| 0 <= i < 8 ==> bytes[at + i] == #[trigger] be_octets_u64(x)[i],
    ensures
        be_u64(bytes, at) == x,
{
    let high = (x / 0x1_0000_0000) as u32;
    let low = (x % 0x1_0000_0000) as u32;
    assert forall|i: int| 0 <= i < 4 implies bytes[at + i] == #[trigger] be_octets_u32(high)[i] by {
        assert(bytes[at + i] == be_octets_u64(x)[i]);
    }
    assert forall|i: int| 0 <= i < 4 implies bytes[at + 4 + i] == #[trigger] be_octets_u32(
        low,
    )[i] by {
        assert(bytes[at + (i + 4)] == be_octets_u64(x)[i + 4]);
    }
    lemma_be_u32_round_trip(high, bytes, at);
    lemma_be_u32_round_trip(low, bytes, at + 4);
}

/// Where each field lies in the wire form.
pub proof fn lemma_encode_layout(p: NtpPacket)
    ensures
        encode(p).len() == PACKET_SIZE,
        encode(p)[0] == first_octet(p),
        encode(p)[1] == p.stratum,
        encode(p)[2] == octet_of(p.poll),
        encode(p)[3] == octet_of(p.precision),
        forall|i: int| 0 <= i < 4 ==> encode(p)[4 + i] == #[trigger] be_octets_u32(p.root_delay)[i],
        forall|i: int|
            0 <= i < 4 ==> encode(p)[8 + i] == #[trigger] be_octets_u32(p.root_dispersion)[i],
        forall|i: int|
            0 <= i < 4 ==> encode(p)[12 + i] == #[trigger] be_octets_u32(
                p.reference_identifier,
            )[i],
        forall|i: int|
            0 <= i < 8 ==> encode(p)[16 + i] == #[trigger] be_octets_u64(
                p.reference_timestamp.0,
            )[i],
        forall|i: int|
            0 <= i < 8 ==> encode(p)[24 + i] == #[trigger] be_octets_u64(
                p.originate_timestamp.0,
            )[i],
        forall|i: int|
            0 <= i < 8 ==> encode(p)[32 + i] == #[trigger] be_octets_u64(p.receive_timestamp.0)[i],
        forall|i: int|
            0 <= i < 8 ==> encode(p)[40 + i] == #[trigger] be_octets_u64(
                p.transmit_timestamp.0,
            )[i],
{
}

/// The three fields packed into the first octet come out of it again.
pub proof fn lemma_first_octet_round_trip(p: NtpPacket)
    requires
        p.version < 8,
    ensures
        LeapIndicator::of_code(first_octet(p) / 64) == p.leap_indicator,
        version_of(first_octet(p)) == p.version,
        NtpMode::of_code(first_octet(p)) == p.mode,
{
}

/// Octets laid out as a header's wire form decode to that header.
proof fn lemma_decode_of_layout(p: NtpPacket, bytes: Seq<u8>)
    requires
        valid_packet(p),
        bytes.len() == PACKET_SIZE,
        bytes[0] == first_octet(p),
        bytes[1] == p.stratum,
        bytes[2] == octet_of(p.poll),
        bytes[3] == octet_of(p.precision),
        forall|i: int| 0 <= i < 4 ==> bytes[4 + i] == #[trigger] be_octets_u32(p.root_delay)[i],
        forall|i: int| 0 <= i < 4 ==> bytes[8 + i] == #[trigger] be_octets_u32(p.root_dispersion)[i],
        forall|i: int|
            0 <= i < 4 ==> bytes[12 + i] == #[trigger] be_octets_u32(p.reference_identifier)[i],
        forall|i: int|
            0 <= i < 8 ==> bytes[16 + i] == #[trigger] be_octets_u64(p.reference_timestamp.0)[i],
        forall|i: int|
            0 <= i < 8 ==> bytes[24 + i] == #[trigger] be_octets_u64(p.originate_timestamp.0)[i],
        forall|i: int|
            0 <= i < 8 ==> bytes[32 + i] == #[trigger] be_octets_u64(p.receive_timestamp.0)[i],
        forall|i: int|
            0 <= i < 8 ==> bytes[40 + i] == #[trigger] be_octets_u64(p.transmit_timestamp.0)[i],
    ensures
        decode(bytes) == Ok::<NtpPacket, NtpError>(p),
{
    lemma_first_octet_round_trip(p);
    lemma_be_u32_round_trip(p.root_delay, bytes, 4);
    lemma_be_u32_round_trip(p.root_dispersion, bytes, 8);
    lemma_be_u32_round_trip(p.reference_identifier, bytes, 12);
    lemma_be_u64_round_trip(p.reference_timestamp.0, bytes, 16);
    lemma_be_u64_round_trip(p.originate_timestamp.0, bytes, 24);
    lemma_be_u64_round_trip(p.receive_timestamp.0, bytes, 32);
    lemma_be_u64_round_trip(p.transmit_timestamp.0, bytes, 40);
}

/// Codec round trip: every header with a version from 1 to 4 encodes to 48
/// octets, and decoding them gives the header back, field for field.
pub proof fn lemma_codec_round_trip(p: NtpPacket)
    requires
        valid_packet(p),
    ensures
        encode(p).len() == PACKET_SIZE,
        decode(encode(p)) == Ok::<NtpPacket, NtpError>(p),
{
    lemma_encode_layout(p);
    lemma_decode_of_layout(p, encode(p));
}

} // verus!
