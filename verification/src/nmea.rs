//! NMEA-0183 sentences as the GPS receiver sends them: splitting into
//! fields, reading numbers, and the three sentences the server uses (RMC
//! for time and date, GGA for the satellite count, GSV for the satellites
//! in view).
//!
//! A sentence is a sequence of octets. Each parser is stated as a spec
//! function on that sequence and returns nothing for a sentence it cannot
//! read.

use crate::packet::{NtpTimestamp, NTP_UNIX_OFFSET};
use crate::stats::{Constellation, SatelliteInfo};
use chrono::NaiveDateTime;
use vstd::prelude::*;

verus! {

pub const COMMA: u8 = 44;

pub const STAR: u8 = 42;

pub const DOT: u8 = 46;

pub const PLUS: u8 = 43;

pub const DIGIT_ZERO: u8 = 48;

pub const DIGIT_NINE: u8 = 57;

/// The pieces of `s` between occurrences of `sep`. There is always one
/// piece more than there are separators, and a piece may be empty.
pub open spec fn spec_split(s: Seq<u8>, sep: u8) -> Seq<Seq<u8>>
    decreases s.len(),
{
    if s.len() == 0 {
        seq![Seq::<u8>::empty()]
    } else {
        let before = spec_split(s.drop_last(), sep);
        if s.last() == sep {
            before.push(Seq::<u8>::empty())
        } else {
            before.update(before.len() - 1, before.last().push(s.last()))
        }
    }
}

/// The comma-separated fields of a sentence.
pub open spec fn spec_fields(s: Seq<u8>) -> Seq<Seq<u8>> {
    spec_split(s, COMMA)
}

/// The contents of a vector of pieces.
pub open spec fn pieces_view(pieces: Seq<Vec<u8>>) -> Seq<Seq<u8>> {
    Seq::new(pieces.len(), |k: int| pieces[k]@)
}

/// A split always gives at least one piece.
pub proof fn lemma_split_nonempty(s: Seq<u8>, sep: u8)
    ensures
        spec_split(s, sep).len() >= 1,
    decreases s.len(),
{
    if s.len() > 0 {
        lemma_split_nonempty(s.drop_last(), sep);
    }
}

/// The pieces put together again, with `sep` between each two.
pub open spec fn spec_join(pieces: Seq<Seq<u8>>, sep: u8) -> Seq<u8>
    decreases pieces.len(),
{
    if pieces.len() == 0 {
        Seq::<u8>::empty()
    } else if pieces.len() == 1 {
        pieces[0]
    } else {
        spec_join(pieces.drop_last(), sep) + seq![sep] + pieces.last()
    }
}

/// Splitting loses nothing and leaves no separator behind: no piece holds
/// `sep`, and the pieces joined by `sep` are `s` again.
pub proof fn lemma_split_join(s: Seq<u8>, sep: u8)
    ensures
        forall|k: int|
            0 <= k < spec_split(s, sep).len() ==> !(#[trigger] spec_split(s, sep)[k]).contains(sep),
        spec_join(spec_split(s, sep), sep) == s,
    decreases s.len(),
{
    let pieces = spec_split(s, sep);
    if s.len() == 0 {
        assert(spec_join(pieces, sep) =~= s);
    } else {
        let before = spec_split(s.drop_last(), sep);
        lemma_split_join(s.drop_last(), sep);
        lemma_split_nonempty(s.drop_last(), sep);
        if s.last() == sep {
            assert(pieces.drop_last() =~= before);
            assert(spec_join(pieces, sep) =~= spec_join(before, sep) + seq![sep]);
            assert(s =~= s.drop_last() + seq![sep]);
        } else {
            let grown = before.last().push(s.last());
            assert(pieces.last() == grown);
            assert forall|k: int| 0 <= k < pieces.len() implies !(#[trigger] pieces[k]).contains(
                sep,
            ) by {
                if k == pieces.len() - 1 {
                    assert(!before[k].contains(sep));
                    if grown.contains(sep) {
                        let i = choose|i: int| 0 <= i < grown.len() && grown[i] == sep;
                        if i < before[k].len() {
                            assert(before[k][i] == sep);
                        }
                    }
                } else {
                    assert(pieces[k] == before[k]);
                }
            }
            if before.len() == 1 {
                assert(spec_join(before, sep) == before[0]);
                assert(spec_join(pieces, sep) =~= s.drop_last().push(s.last()));
            } else {
                assert(pieces.drop_last() =~= before.drop_last());
                assert(spec_join(pieces, sep) =~= spec_join(before.drop_last(), sep) + seq![sep]
                    + grown);
                assert(spec_join(before, sep) == spec_join(before.drop_last(), sep) + seq![sep]
                    + before.last());
                assert(spec_join(pieces, sep) =~= spec_join(before, sep).push(s.last()));
            }
            assert(s =~= s.drop_last().push(s.last()));
        }
    }
}

/// Input without a separator is one piece.
pub proof fn lemma_split_single(s: Seq<u8>, sep: u8)
    requires
        !s.contains(sep),
    ensures
        spec_split(s, sep) == seq![s],
    decreases s.len(),
{
    if s.len() == 0 {
        assert(s =~= Seq::<u8>::empty());
    } else {
        let head = s.drop_last();
        assert(s.last() == s[s.len() - 1]);
        assert(!head.contains(sep)) by {
            if head.contains(sep) {
                let i = choose|i: int| 0 <= i < head.len() && head[i] == sep;
                assert(s[i] == sep);
            }
        }
        lemma_split_single(head, sep);
        assert(head.push(s.last()) =~= s);
        assert(spec_split(s, sep) =~= seq![s]);
    }
}

/// Input may arrive in any portions: splitting `a + b` gives the pieces
/// that `a` holds in full, followed by the pieces of what was left of `a`
/// with `b` after it.
pub proof fn lemma_split_in_portions(a: Seq<u8>, b: Seq<u8>, sep: u8)
    ensures
        spec_split(a + b, sep) == spec_split(a, sep).drop_last() + spec_split(
            spec_split(a, sep).last() + b,
            sep,
        ),
    decreases b.len(),
{
    let done = spec_split(a, sep).drop_last();
    let left = spec_split(a, sep).last();
    lemma_split_nonempty(a, sep);
    if b.len() == 0 {
        lemma_split_join(a, sep);
        lemma_split_single(left, sep);
        assert(a + b =~= a);
        assert(left + b =~= left);
        assert(done + seq![left] =~= spec_split(a, sep));
    } else {
        let head = b.drop_last();
        lemma_split_in_portions(a, head, sep);
        assert((a + b).drop_last() =~= a + head);
        assert((left + b).drop_last() =~= left + head);
        assert((a + b).last() == b.last());
        assert((left + b).last() == b.last());
        let rest = spec_split(left + head, sep);
        lemma_split_nonempty(left + head, sep);
        let whole = spec_split(a + head, sep);
        assert(whole == done + rest);
        assert(whole.last() == rest.last());
        if b.last() == sep {
            assert(whole.push(Seq::<u8>::empty()) =~= done + rest.push(Seq::<u8>::empty()));
        } else {
            let grown = rest.last().push(b.last());
            assert(whole.update(whole.len() - 1, grown) =~= done + rest.update(
                rest.len() - 1,
                grown,
            ));
        }
    }
}

/// Splits `line` at every `sep`.
pub fn split_on(line: &[u8], sep: u8) -> (r: Vec<Vec<u8>>)
    ensures
        pieces_view(r@) == spec_split(line@, sep),
        r@.len() >= 1,
{
    let mut done: Vec<Vec<u8>> = Vec::new();
    let mut current: Vec<u8> = Vec::new();
    let mut i: usize = 0;
    proof {
        assert(line@.subrange(0, 0) =~= Seq::<u8>::empty());
    }
    while i < line.len()
        invariant
            i <= line.len(),
            spec_split(line@.subrange(0, i as int), sep).len() == done@.len() + 1,
            forall|k: int|
                0 <= k < done@.len() ==> (#[trigger] done@[k])@ == spec_split(
                    line@.subrange(0, i as int),
                    sep,
                )[k],
            current@ == spec_split(line@.subrange(0, i as int), sep).last(),
        decreases line.len() - i,
    {
        let c: u8 = line[i];
        proof {
            let next = line@.subrange(0, i + 1);
            assert(next.drop_last() =~= line@.subrange(0, i as int));
            assert(next.last() == c);
        }
        if c == sep {
            done.push(current);
            current = Vec::new();
        } else {
            current.push(c);
        }
        i += 1;
    }
    done.push(current);
    proof {
        assert(line@.subrange(0, line@.len() as int) =~= line@);
        assert(pieces_view(done@) =~= spec_split(line@, sep));
    }
    done
}

/// Whether an octet is an ASCII digit.
pub open spec fn is_digit(b: u8) -> bool {
    DIGIT_ZERO <= b <= DIGIT_NINE
}

/// Whether every octet is an ASCII digit.
pub open spec fn all_digits(s: Seq<u8>) -> bool {
    forall|i: int| 0 <= i < s.len() ==> is_digit(#[trigger] s[i])
}

/// The number that a run of digits writes in base ten.
pub open spec fn digits_value(s: Seq<u8>) -> nat
    decreases s.len(),
{
    if s.len() == 0 {
        0
    } else {
        digits_value(s.drop_last()) * 10 + (s.last() - DIGIT_ZERO) as nat
    }
}

/// The digits of a number, without the plus sign that may stand before
/// them.
pub open spec fn unsigned_body(s: Seq<u8>) -> Seq<u8> {
    if s.len() > 0 && s[0] == PLUS {
        s.subrange(1, s.len() as int)
    } else {
        s
    }
}

/// The unsigned number that `s` writes, if it writes one of at most `max`:
/// an optional plus sign, then one digit or more, nothing else.
pub open spec fn spec_parse_unsigned(s: Seq<u8>, max: u32) -> Option<u32> {
    let body = unsigned_body(s);
    if body.len() > 0 && all_digits(body) && digits_value(body) <= max {
        Some(digits_value(body) as u32)
    } else {
        None
    }
}

/// More digits never write a smaller number.
pub proof fn lemma_digits_value_grows(s: Seq<u8>, k: int)
    requires
        0 <= k <= s.len(),
    ensures
        digits_value(s.subrange(0, k)) <= digits_value(s),
    decreases s.len() - k,
{
    if k == s.len() {
        assert(s.subrange(0, k) =~= s);
    } else {
        lemma_digits_value_grows(s.drop_last(), k);
        assert(s.drop_last().subrange(0, k) =~= s.subrange(0, k));
    }
}

/// Reads an unsigned decimal number of at most `max`.
pub fn parse_unsigned(s: &[u8], max: u32) -> (r: Option<u32>)
    ensures
        r == spec_parse_unsigned(s@, max),
{
    let start: usize = if s.len() > 0 && s[0] == PLUS {
        1
    } else {
        0
    };
    if start >= s.len() {
        return None;
    }
    let ghost body = unsigned_body(s@);
    proof {
        assert(body =~= s@.subrange(start as int, s@.len() as int));
        assert(body.subrange(0, 0) =~= Seq::<u8>::empty());
    }
    let mut acc: u64 = 0;
    let mut i: usize = start;
    while i < s.len()
        invariant
            start <= i <= s.len(),
            body == unsigned_body(s@),
            body == s@.subrange(start as int, s@.len() as int),
            all_digits(body.subrange(0, i - start)),
            acc == digits_value(body.subrange(0, i - start)),
            acc <= max,
        decreases s.len() - i,
    {
        let c: u8 = s[i];
        proof {
            let next = body.subrange(0, i - start + 1);
            assert(next.drop_last() =~= body.subrange(0, i - start));
            assert(next.last() == c);
            assert(body[i - start] == c);
        }
        if c < DIGIT_ZERO || c > DIGIT_NINE {
            proof {
                assert(!is_digit(body[i - start]));
            }
            return None;
        }
        let grown: u64 = acc * 10 + (c - DIGIT_ZERO) as u64;
        if grown > max as u64 {
            proof {
                lemma_digits_value_grows(body, i - start + 1);
                assert(digits_value(body.subrange(0, i - start + 1)) == grown);
            }
            return None;
        }
        proof {
            let next = body.subrange(0, i - start + 1);
            assert forall|j: int| 0 <= j < next.len() implies is_digit(#[trigger] next[j]) by {
                if j < i - start {
                    assert(next[j] == body.subrange(0, i - start)[j]);
                }
            }
        }
        acc = grown;
        i += 1;
    }
    proof {
        assert(body.subrange(0, body.len() as int) =~= body);
    }
    Some(acc as u32)
}

/// The number that `s` writes, or zero when it writes none of at most
/// `max`.
pub open spec fn spec_parse_or_zero(s: Seq<u8>, max: u32) -> u32 {
    match spec_parse_unsigned(s, max) {
        Some(v) => v,
        None => 0,
    }
}

pub fn parse_or_zero(s: &[u8], max: u32) -> (r: u32)
    ensures
        r == spec_parse_or_zero(s@, max),
        r <= max,
{
    match parse_unsigned(s, max) {
        Some(v) => v,
        None => 0,
    }
}

/// What a sentence reports, by its first six octets.
#[derive(Debug, Clone, Copy, PartialEq, Eq, Structural)]
pub enum SentenceKind {
    /// `$GPRMC` or `$GNRMC`: recommended minimum data.
    Rmc,
    /// `$GPGGA` or `$GNGGA`: fix data.
    Gga,
    /// `$GPGSV`, `$GLGSV`, `$GAGSV`, `$GBGSV` or `$GNGSV`: satellites in
    /// view of one system.
    Gsv(Constellation),
    Other,
}

/// The kind of a sentence.
pub open spec fn spec_kind(line: Seq<u8>) -> SentenceKind {
    if line.len() < 6 || line[0] != 36 || line[1] != 71 {
        SentenceKind::Other
    } else if line[3] == 82 && line[4] == 77 && line[5] == 67 {
        if line[2] == 80 || line[2] == 78 {
            SentenceKind::Rmc
        } else {
            SentenceKind::Other
        }
    } else if line[3] == 71 && line[4] == 71 && line[5] == 65 {
        if line[2] == 80 || line[2] == 78 {
            SentenceKind::Gga
        } else {
            SentenceKind::Other
        }
    } else if line[3] == 71 && line[4] == 83 && line[5] == 86 {
        if line[2] == 80 {
            SentenceKind::Gsv(Constellation::Gps)
        } else if line[2] == 76 {
            SentenceKind::Gsv(Constellation::Glonass)
        } else if line[2] == 65 {
            SentenceKind::Gsv(Constellation::Galileo)
        } else if line[2] == 66 {
            SentenceKind::Gsv(Constellation::BeiDou)
        } else if line[2] == 78 {
            SentenceKind::Gsv(Constellation::Gnss)
        } else {
            SentenceKind::Other
        }
    } else {
        SentenceKind::Other
    }
}

/// Tells the kind of a sentence from its first six octets.
pub fn kind(line: &[u8]) -> (r: SentenceKind)
    ensures
        r == spec_kind(line@),
{
    if line.len() < 6 || line[0] != 36 || line[1] != 71 {
        return SentenceKind::Other;
    }
    let talker: u8 = line[2];
    let a: u8 = line[3];
    let b: u8 = line[4];
    let c: u8 = line[5];
    if a == 82 && b == 77 && c == 67 {
        if talker == 80 || talker == 78 {
            SentenceKind::Rmc
        } else {
            SentenceKind::Other
        }
    } else if a == 71 && b == 71 && c == 65 {
        if talker == 80 || talker == 78 {
            SentenceKind::Gga
        } else {
            SentenceKind::Other
        }
    } else if a == 71 && b == 83 && c == 86 {
        if talker == 80 {
            SentenceKind::Gsv(Constellation::Gps)
        } else if talker == 76 {
            SentenceKind::Gsv(Constellation::Glonass)
        } else if talker == 65 {
            SentenceKind::Gsv(Constellation::Galileo)
        } else if talker == 66 {
            SentenceKind::Gsv(Constellation::BeiDou)
        } else if talker == 78 {
            SentenceKind::Gsv(Constellation::Gnss)
        } else {
            SentenceKind::Other
        }
    } else {
        SentenceKind::Other
    }
}

/// What chrono makes of a date and time written as `%Y-%m-%d %H:%M:%S`:
/// its Unix seconds, or nothing when chrono rejects the text.
pub uninterp spec fn utc_datetime_seconds(text: Seq<u8>) -> Option<i64>;

/// Calls chrono's `NaiveDateTime::parse_from_str` with the layout
/// `%Y-%m-%d %H:%M:%S` and reads the result as Unix seconds with
/// `and_utc().timestamp()`. Text that is not UTF-8, or that chrono rejects,
/// gives `None`. What chrono accepts is not restated here: the result is
/// only named.
#[verifier::external_body]
fn parse_utc_datetime(text: &[u8]) -> (r: Option<i64>)
    ensures
        r == utc_datetime_seconds(text@),
{
    let text = std::str::from_utf8(text).ok()?;
    let parsed = NaiveDateTime::parse_from_str(text, "%Y-%m-%d %H:%M:%S").ok()?;
    Some(parsed.and_utc().timestamp())
}

/// The text handed to chrono for the time `hhmmss` and the date `ddmmyy`:
/// `20yy-mm-dd hh:mm:ss`.
pub open spec fn spec_datetime_text(time: Seq<u8>, date: Seq<u8>) -> Seq<u8> {
    seq![50u8, 48u8] + date.subrange(4, 6) + seq![45u8] + date.subrange(2, 4) + seq![45u8]
        + date.subrange(0, 2) + seq![32u8] + time.subrange(0, 2) + seq![58u8] + time.subrange(2, 4)
        + seq![58u8] + time.subrange(4, 6)
}

/// Writes the text for chrono.
fn datetime_text(time: &[u8], date: &[u8]) -> (r: Vec<u8>)
    requires
        time@.len() >= 6,
        date@.len() >= 6,
    ensures
        r@ == spec_datetime_text(time@, date@),
{
    let mut text: Vec<u8> = Vec::new();
    text.push(50);
    text.push(48);
    text.push(date[4]);
    text.push(date[5]);
    text.push(45);
    text.push(date[2]);
    text.push(date[3]);
    text.push(45);
    text.push(date[0]);
    text.push(date[1]);
    text.push(32);
    text.push(time[0]);
    text.push(time[1]);
    text.push(58);
    text.push(time[2]);
    text.push(time[3]);
    text.push(58);
    text.push(time[4]);
    text.push(time[5]);
    proof {
        assert(text@ =~= spec_datetime_text(time@, date@));
    }
    text
}

/// The milliseconds that a time field carries after `hhmmss.`: the number
/// written there, or zero when there is none.
pub open spec fn spec_millis(time: Seq<u8>) -> u32 {
    if time.len() > 7 && time[6] == DOT {
        spec_parse_or_zero(time.subrange(7, time.len() as int), u32::MAX)
    } else {
        0
    }
}

pub fn millis(time: &[u8]) -> (r: u32)
    ensures
        r == spec_millis(time@),
{
    if time.len() > 7 && time[6] == DOT {
        let tail = slice_from(time, 7);
        parse_or_zero(tail.as_slice(), u32::MAX)
    } else {
        0
    }
}

/// Copies `s` from `start` to its end.
fn slice_from(s: &[u8], start: usize) -> (r: Vec<u8>)
    requires
        start <= s@.len(),
    ensures
        r@ == s@.subrange(start as int, s@.len() as int),
{
    let mut out: Vec<u8> = Vec::new();
    let mut i: usize = start;
    while i < s.len()
        invariant
            start <= i <= s.len(),
            out@ == s@.subrange(start as int, i as int),
        decreases s.len() - i,
    {
        out.push(s[i]);
        proof {
            assert(out@ =~= s@.subrange(start as int, i + 1));
        }
        i += 1;
    }
    out
}

/// The timestamp for a date and time that chrono read as `unix` seconds,
/// with `millis` milliseconds: the Unix time moved to the NTP epoch. There
/// is none when chrono read nothing, when the time lies before 1970, or
/// when the milliseconds make a second or more.
pub open spec fn spec_rmc_timestamp(unix: Option<i64>, millis: u32) -> Option<NtpTimestamp> {
    match unix {
        Some(secs) => if secs >= 0 && millis <= 999 {
            Some(
                NtpTimestamp::spec_from_seconds_and_nanos(
                    (secs + NTP_UNIX_OFFSET) as u64,
                    (millis * 1_000_000) as u32,
                ),
            )
        } else {
            None
        },
        None => None,
    }
}

/// Builds the timestamp of an RMC sentence from what chrono read.
pub fn rmc_timestamp(unix: Option<i64>, millis: u32) -> (r: Option<NtpTimestamp>)
    ensures
        r == spec_rmc_timestamp(unix, millis),
{
    match unix {
        Some(secs) => {
            if secs >= 0 && millis <= 999 {
                let seconds: u64 = secs as u64 + NTP_UNIX_OFFSET;
                Some(NtpTimestamp::from_seconds_and_nanos(seconds, millis * 1_000_000))
            } else {
                None
            }
        },
        None => None,
    }
}

/// The time of an RMC sentence. The sentence needs ten fields or more, the
/// status `A` in field 2, a time of six octets or more in field 1 and a
/// date of exactly six octets in field 9. The date is read as `ddmmyy` in
/// the years 2000 to 2099.
pub open spec fn spec_parse_rmc(sentence: Seq<u8>) -> Option<NtpTimestamp> {
    let fields = spec_fields(sentence);
    if fields.len() < 10 {
        None
    } else if fields[2] != seq![65u8] {
        None
    } else if fields[1].len() < 6 || fields[9].len() != 6 {
        None
    } else {
        spec_rmc_timestamp(
            utc_datetime_seconds(spec_datetime_text(fields[1], fields[9])),
            spec_millis(fields[1]),
        )
    }
}

/// Reads the time of an RMC sentence.
pub fn parse_rmc(sentence: &[u8]) -> (r: Option<NtpTimestamp>)
    ensures
        r == spec_parse_rmc(sentence@),
{
    let fields = split_on(sentence, COMMA);
    proof {
        assert(pieces_view(fields@).len() == fields@.len());
    }
    if fields.len() < 10 {
        return None;
    }
    proof {
        assert(pieces_view(fields@)[1] == fields@[1]@);
        assert(pieces_view(fields@)[2] == fields@[2]@);
        assert(pieces_view(fields@)[9] == fields@[9]@);
    }
    let status = &fields[2];
    if status.len() != 1 || status[0] != 65 {
        proof {
            if status@.len() == 1 {
                assert(status@[0] != seq![65u8][0]);
            }
        }
        return None;
    }
    proof {
        assert(status@ =~= seq![65u8]);
    }
    let time = &fields[1];
    let date = &fields[9];
    if time.len() < 6 || date.len() != 6 {
        return None;
    }
    let text = datetime_text(time.as_slice(), date.as_slice());
    let unix = parse_utc_datetime(text.as_slice());
    rmc_timestamp(unix, millis(time.as_slice()))
}

/// The satellite count of a GGA sentence: field 7 read as a number up to
/// 255, when the sentence has eight fields or more.
pub open spec fn spec_parse_gga(sentence: Seq<u8>) -> Option<u8> {
    let fields = spec_fields(sentence);
    if fields.len() < 8 {
        None
    } else {
        match spec_parse_unsigned(fields[7], 255) {
            Some(v) => Some(v as u8),
            None => None,
        }
    }
}

/// Reads the satellite count of a GGA sentence.
pub fn parse_gga(sentence: &[u8]) -> (r: Option<u8>)
    ensures
        r == spec_parse_gga(sentence@),
{
    let fields = split_on(sentence, COMMA);
    proof {
        assert(pieces_view(fields@).len() == fields@.len());
    }
    if fields.len() < 8 {
        return None;
    }
    proof {
        assert(pieces_view(fields@)[7] == fields@[7]@);
    }
    match parse_unsigned(fields[7].as_slice(), 255) {
        Some(v) => Some(v as u8),
        None => None,
    }
}

/// The satellite that the four fields from `base` on describe, if they
/// describe one: a satellite number from 1 to 255, then elevation, azimuth
/// and signal-to-noise ratio. A value that is missing, unreadable or out of
/// its range counts as zero. Of the last field only the part before a `*`
/// is read.
pub open spec fn spec_slot(fields: Seq<Seq<u8>>, base: int, constellation: Constellation) -> Option<
    SatelliteInfo,
> {
    match spec_parse_unsigned(fields[base], 255) {
        Some(prn) => if prn > 0 {
            Some(
                SatelliteInfo {
                    prn: prn as u8,
                    elevation: spec_parse_or_zero(fields[base + 1], 90) as u8,
                    azimuth: spec_parse_or_zero(fields[base + 2], 359) as u16,
                    snr: spec_parse_or_zero(spec_split(fields[base + 3], STAR)[0], 99) as u8,
                    constellation,
                },
            )
        } else {
            None
        },
        None => None,
    }
}

/// The satellites of the first `slots` slots of a GSV sentence. Slot `k`
/// takes fields `4 + 4k` to `7 + 4k`; a slot that the sentence does not
/// hold in full, or that names no satellite, adds nothing.
pub open spec fn spec_slots(fields: Seq<Seq<u8>>, constellation: Constellation, slots: nat) -> Seq<
    SatelliteInfo,
>
    decreases slots,
{
    if slots == 0 {
        Seq::<SatelliteInfo>::empty()
    } else {
        let before = spec_slots(fields, constellation, (slots - 1) as nat);
        let base = 4 + 4 * (slots - 1);
        if base + 3 >= fields.len() {
            before
        } else {
            match spec_slot(fields, base, constellation) {
                Some(satellite) => before.push(satellite),
                None => before,
            }
        }
    }
}

/// The satellites of a GSV sentence: those of its four slots, if there is
/// at least one.
pub open spec fn spec_parse_gsv(sentence: Seq<u8>) -> Option<Seq<SatelliteInfo>> {
    match spec_kind(sentence) {
        SentenceKind::Gsv(constellation) => {
            let fields = spec_fields(sentence);
            let found = spec_slots(fields, constellation, 4);
            if fields.len() >= 4 && found.len() > 0 {
                Some(found)
            } else {
                None
            }
        },
        _ => None,
    }
}

/// Every satellite that a GSV sentence yields lies in its ranges.
pub proof fn lemma_slots_wf(fields: Seq<Seq<u8>>, constellation: Constellation, slots: nat)
    ensures
        forall|i: int|
            0 <= i < spec_slots(fields, constellation, slots).len() ==> (#[trigger] spec_slots(
                fields,
                constellation,
                slots,
            )[i]).wf(),
        spec_slots(fields, constellation, slots).len() <= slots,
    decreases slots,
{
    if slots > 0 {
        lemma_slots_wf(fields, constellation, (slots - 1) as nat);
    }
}

/// Reads the satellites of a GSV sentence.
pub fn parse_gsv(sentence: &[u8]) -> (r: Option<Vec<SatelliteInfo>>)
    ensures
        match r {
            Some(found) => spec_parse_gsv(sentence@) == Some(found@),
            None => spec_parse_gsv(sentence@) is None,
        },
        r matches Some(found) ==> 0 < found@.len() <= 4 && forall|i: int|
            0 <= i < found@.len() ==> (#[trigger] found@[i]).wf(),
{
    let constellation = match kind(sentence) {
        SentenceKind::Gsv(constellation) => constellation,
        _ => {
            return None;
        },
    };
    let fields = split_on(sentence, COMMA);
    let ghost model = spec_fields(sentence@);
    proof {
        assert(pieces_view(fields@).len() == fields@.len());
    }
    if fields.len() < 4 {
        return None;
    }
    let mut found: Vec<SatelliteInfo> = Vec::new();
    let mut slot: usize = 0;
    while slot < 4
        invariant
            slot <= 4,
            model == pieces_view(fields@),
            model.len() == fields@.len(),
            found@ == spec_slots(model, constellation, slot as nat),
        decreases 4 - slot,
    {
        let base: usize = 4 + 4 * slot;
        proof {
            assert(spec_slots(model, constellation, (slot + 1) as nat) == {
                let before = spec_slots(model, constellation, slot as nat);
                if base + 3 >= model.len() {
                    before
                } else {
                    match spec_slot(model, base as int, constellation) {
                        Some(satellite) => before.push(satellite),
                        None => before,
                    }
                }
            });
        }
        if base + 3 < fields.len() {
            proof {
                assert(model[base as int] == fields@[base as int]@);
                assert(model[base + 1] == fields@[base + 1]@);
                assert(model[base + 2] == fields@[base + 2]@);
                assert(model[base + 3] == fields@[base + 3]@);
            }
            match parse_unsigned(fields[base].as_slice(), 255) {
                Some(prn) => {
                    if prn > 0 {
                        let elevation: u32 = parse_or_zero(fields[base + 1].as_slice(), 90);
                        let azimuth: u32 = parse_or_zero(fields[base + 2].as_slice(), 359);
                        let parts = split_on(fields[base + 3].as_slice(), STAR);
                        proof {
                            assert(pieces_view(parts@)[0] == parts@[0]@);
                        }
                        let snr: u32 = parse_or_zero(parts[0].as_slice(), 99);
                        found.push(
                            SatelliteInfo {
                                prn: prn as u8,
                                elevation: elevation as u8,
                                azimuth: azimuth as u16,
                                snr: snr as u8,
                                constellation,
                            },
                        );
                    }
                },
                None => {},
            }
        }
        slot += 1;
    }
    proof {
        lemma_slots_wf(model, constellation, 4);
    }
    if found.len() == 0 {
        None
    } else {
        Some(found)
    }
}

} // verus!
