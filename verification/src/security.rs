//! Admission control: the allow and deny lists, the per-address rate
//! limiter, and the validation of a decoded request.
//!
//! The limiter counts requests per source address in fixed windows of one
//! second. Its rule is the spec function [`spec_step`]; the table is
//! proved to follow it, and [`lemma_admission_in_window`] and
//! [`lemma_burst_admission`] state what that means for a burst.

use crate::packet::{NtpMode, NtpPacket};
use crate::timebase::{elapsed, spec_elapsed, Monotonic};
use std::collections::HashMap;
use std::hash::Hash;
use vstd::prelude::*;
use vstd::std_specs::hash::*;

verus! {

broadcast use vstd::std_specs::hash::group_hash_axioms;

/// Length of a rate-limiting window, in nanoseconds.
pub const WINDOW_NANOS: u128 = 1_000_000_000;

/// Time between two sweeps of the table, and the idle time after which an
/// address is forgotten, in nanoseconds.
pub const IDLE_NANOS: u128 = 60_000_000_000;

/// A source address: the 32 bits of an IPv4 address or the 128 bits of an
/// IPv6 address, most significant octet first. An IPv4 address and the
/// IPv6 address that embeds it are different addresses.
#[derive(Debug, Clone, Copy, PartialEq, Eq, Hash, Structural)]
pub enum IpAddress {
    V4(u32),
    V6(u128),
}

impl IpAddress {
    /// The IPv4 address `a.b.c.d`.
    pub fn v4(a: u8, b: u8, c: u8, d: u8) -> (r: Self)
        ensures
            r == IpAddress::V4((a * 0x100_0000 + b * 0x1_0000 + c * 0x100 + d) as u32),
    {
        IpAddress::V4(a as u32 * 0x100_0000 + b as u32 * 0x1_0000 + c as u32 * 0x100 + d as u32)
    }
}

/// Whether `list` holds `ip`.
pub fn list_contains(list: &Vec<IpAddress>, ip: IpAddress) -> (r: bool)
    ensures
        r == list@.contains(ip),
{
    let mut i: usize = 0;
    while i < list.len()
        invariant
            i <= list.len(),
            forall|j: int| 0 <= j < i ==> list@[j] != ip,
        decreases list.len() - i,
    {
        if list[i] == ip {
            return true;
        }
        i += 1;
    }
    false
}

/// The addresses among `entries`, in their order.
pub open spec fn spec_addresses(entries: Seq<Option<IpAddress>>) -> Seq<IpAddress>
    decreases entries.len(),
{
    if entries.len() == 0 {
        Seq::<IpAddress>::empty()
    } else {
        let before = spec_addresses(entries.drop_last());
        match entries.last() {
            Some(ip) => before.push(ip),
            None => before,
        }
    }
}

/// Collects the addresses among `entries`.
pub fn addresses(entries: &Vec<Option<IpAddress>>) -> (r: Vec<IpAddress>)
    ensures
        r@ == spec_addresses(entries@),
{
    let mut out: Vec<IpAddress> = Vec::new();
    let mut i: usize = 0;
    proof {
        assert(entries@.subrange(0, 0) =~= Seq::<Option<IpAddress>>::empty());
    }
    while i < entries.len()
        invariant
            i <= entries.len(),
            out@ == spec_addresses(entries@.subrange(0, i as int)),
        decreases entries.len() - i,
    {
        proof {
            let next = entries@.subrange(0, i + 1);
            assert(next.drop_last() =~= entries@.subrange(0, i as int));
            assert(next.last() == entries@[i as int]);
        }
        match entries[i] {
            Some(ip) => {
                out.push(ip);
            },
            None => {},
        }
        i += 1;
    }
    proof {
        assert(entries@.subrange(0, entries@.len() as int) =~= entries@);
    }
    out
}

/// The allow and deny lists.
pub struct IpFilter {
    pub whitelist: Vec<IpAddress>,
    pub blacklist: Vec<IpAddress>,
}

impl IpFilter {
    /// The filter rule: an address on the deny list is refused; with an
    /// empty allow list every other address passes; otherwise only those
    /// on the allow list do.
    pub open spec fn spec_allowed(whitelist: Seq<IpAddress>, blacklist: Seq<IpAddress>, ip: IpAddress)
        -> bool {
        !blacklist.contains(ip) && (whitelist.len() == 0 || whitelist.contains(ip))
    }

    pub fn new(whitelist: Vec<IpAddress>, blacklist: Vec<IpAddress>) -> (r: Self)
        ensures
            r.whitelist == whitelist,
            r.blacklist == blacklist,
    {
        IpFilter { whitelist, blacklist }
    }

    /// Builds the filter from list entries as they were read: an entry that
    /// is no address (`None`) is left out, the others keep their order.
    pub fn from_entries(whitelist: &Vec<Option<IpAddress>>, blacklist: &Vec<Option<IpAddress>>) -> (r:
        Self)
        ensures
            r.whitelist@ == spec_addresses(whitelist@),
            r.blacklist@ == spec_addresses(blacklist@),
    {
        IpFilter { whitelist: addresses(whitelist), blacklist: addresses(blacklist) }
    }

    /// Whether a request from `ip` may pass.
    pub fn is_allowed(&self, ip: IpAddress) -> (r: bool)
        ensures
            r == Self::spec_allowed(self.whitelist@, self.blacklist@, ip),
    {
        if list_contains(&self.blacklist, ip) {
            return false;
        }
        if self.whitelist.len() == 0 {
            return true;
        }
        list_contains(&self.whitelist, ip)
    }
}

/// What the limiter remembers of one address.
#[derive(Debug, Clone, Copy, PartialEq, Eq, Structural)]
pub struct RateLimitState {
    /// Requests seen in the current window, admitted or not.
    pub request_count: u32,
    /// When the current window began.
    pub window_start: u128,
    /// When the last request came.
    pub last_request: u128,
}

impl RateLimitState {
    /// Whether the address was heard from less than sixty seconds before
    /// `now`.
    pub open spec fn spec_active_at(&self, now: u128) -> bool {
        spec_elapsed(self.last_request, now) < IDLE_NANOS
    }

    pub fn active_at(&self, now: u128) -> (r: bool)
        ensures
            r == self.spec_active_at(now),
    {
        elapsed(self.last_request, now) < IDLE_NANOS
    }
}

/// One request at `now` from an address with the given entry: the entry
/// afterwards, and whether the request is admitted. An address without an
/// entry starts a window. A request a second or more after the window
/// began starts a new one and is admitted. Any other request is counted
/// and admitted while the count stays within `max`.
pub open spec fn spec_step(entry: Option<RateLimitState>, now: u128, max: u32) -> (
    RateLimitState,
    bool,
) {
    let state = match entry {
        Some(state) => state,
        None => RateLimitState { request_count: 0, window_start: now, last_request: now },
    };
    if spec_elapsed(state.window_start, now) >= WINDOW_NANOS {
        (RateLimitState { request_count: 1, window_start: now, last_request: now }, true)
    } else {
        (
            RateLimitState {
                request_count: if state.request_count < u32::MAX {
                    (state.request_count + 1) as u32
                } else {
                    u32::MAX
                },
                window_start: state.window_start,
                last_request: now,
            },
            state.request_count + 1 <= max,
        )
    }
}

/// Applies [`spec_step`] to an entry.
pub fn step(entry: Option<RateLimitState>, now: u128, max: u32) -> (r: (RateLimitState, bool))
    ensures
        r == spec_step(entry, now, max),
{
    let state = match entry {
        Some(state) => state,
        None => RateLimitState { request_count: 0, window_start: now, last_request: now },
    };
    if elapsed(state.window_start, now) >= WINDOW_NANOS {
        (RateLimitState { request_count: 1, window_start: now, last_request: now }, true)
    } else if state.request_count < u32::MAX {
        let count: u32 = state.request_count + 1;
        (
            RateLimitState {
                request_count: count,
                window_start: state.window_start,
                last_request: now,
            },
            count <= max,
        )
    } else {
        (
            RateLimitState {
                request_count: u32::MAX,
                window_start: state.window_start,
                last_request: now,
            },
            false,
        )
    }
}

/// The entries of `table` that are still active at `now`.
pub open spec fn spec_retained<K>(table: Map<K, RateLimitState>, now: u128) -> Map<
    K,
    RateLimitState,
> {
    table.restrict(Set::new(|k: K| table.contains_key(k) && table[k].spec_active_at(now)))
}

/// Calls `HashMap::retain`, which keeps the entries for which the closure
/// returns true and removes all others. The closure asks
/// [`RateLimitState::active_at`].
#[verifier::external_body]
fn retain_active<K: Eq + Hash>(table: &mut HashMap<K, RateLimitState>, now: u128)
    requires
        obeys_key_model::<K>(),
    ensures
        final(table)@ == spec_retained(old(table)@, now),
{
    table.retain(|_, state| state.active_at(now));
}

/// The limiter's table and settings as mathematical values.
pub struct LimiterModel {
    pub v4: Map<u32, RateLimitState>,
    pub v6: Map<u128, RateLimitState>,
    pub max_requests_per_second: u32,
    pub last_cleanup: u128,
}

impl LimiterModel {
    /// The entry of an address, if it has one.
    pub open spec fn entry(self, ip: IpAddress) -> Option<RateLimitState> {
        match ip {
            IpAddress::V4(a) => if self.v4.contains_key(a) {
                Some(self.v4[a])
            } else {
                None
            },
            IpAddress::V6(a) => if self.v6.contains_key(a) {
                Some(self.v6[a])
            } else {
                None
            },
        }
    }

    /// The table with the entry of `ip` set to `state`.
    pub open spec fn with_entry(self, ip: IpAddress, state: RateLimitState) -> LimiterModel {
        match ip {
            IpAddress::V4(a) => LimiterModel { v4: self.v4.insert(a, state), ..self },
            IpAddress::V6(a) => LimiterModel { v6: self.v6.insert(a, state), ..self },
        }
    }

    /// Whether a sweep is due at `now`: sixty seconds or more since the last.
    pub open spec fn sweep_due(self, now: u128) -> bool {
        spec_elapsed(self.last_cleanup, now) >= IDLE_NANOS
    }

    /// The table after the sweep that `now` may call for: when one is due,
    /// the idle addresses are dropped and the sweep is dated `now`.
    pub open spec fn swept(self, now: u128) -> LimiterModel {
        if self.sweep_due(now) {
            LimiterModel {
                v4: spec_retained(self.v4, now),
                v6: spec_retained(self.v6, now),
                last_cleanup: now,
                ..self
            }
        } else {
            self
        }
    }

    /// The table after a request from `ip` at `now`, and whether the
    /// request is admitted: first the sweep, then the step of the address.
    pub open spec fn checked(self, ip: IpAddress, now: u128) -> (LimiterModel, bool) {
        let swept = self.swept(now);
        let (state, admitted) = spec_step(swept.entry(ip), now, self.max_requests_per_second);
        (swept.with_entry(ip, state), admitted)
    }

    /// Number of addresses in the table.
    pub open spec fn address_count(self) -> nat {
        self.v4.dom().len() + self.v6.dom().len()
    }
}

/// Per-address rate limiter. Its view is a [`LimiterModel`].
pub struct RateLimiter {
    v4: HashMap<u32, RateLimitState>,
    v6: HashMap<u128, RateLimitState>,
    max_requests_per_second: u32,
    last_cleanup: u128,
    line: Monotonic,
}

/// Number of addresses that the limiter tracks.
pub struct RateLimiterStats {
    pub tracked_ips: usize,
}

impl View for RateLimiter {
    type V = LimiterModel;

    closed spec fn view(&self) -> LimiterModel {
        LimiterModel {
            v4: self.v4@,
            v6: self.v6@,
            max_requests_per_second: self.max_requests_per_second,
            last_cleanup: self.last_cleanup,
        }
    }
}

fn lookup<K: Eq + Hash + Copy>(table: &HashMap<K, RateLimitState>, key: K) -> (r: Option<
    RateLimitState,
>)
    requires
        obeys_key_model::<K>(),
    ensures
        r == (if table@.contains_key(key) {
            Some(table@[key])
        } else {
            None
        }),
{
    match table.get(&key) {
        Some(state) => Some(*state),
        None => None,
    }
}

impl RateLimiter {
    /// A limiter with an empty table that admits `max_requests_per_second`
    /// requests per address and window.
    pub fn new(max_requests_per_second: u32) -> (r: Self)
        ensures
            r@.v4 == Map::<u32, RateLimitState>::empty(),
            r@.v6 == Map::<u128, RateLimitState>::empty(),
            r@.max_requests_per_second == max_requests_per_second,
    {
        let line = Monotonic::start();
        let now: u128 = line.now();
        RateLimiter {
            v4: HashMap::new(),
            v6: HashMap::new(),
            max_requests_per_second,
            last_cleanup: now,
            line,
        }
    }

    /// The present moment on the limiter's monotonic line.
    pub fn monotonic_now(&self) -> (r: u128) {
        self.line.now()
    }

    /// Drops the idle addresses if a sweep is due at `now`.
    pub fn cleanup_old_entries(&mut self, now: u128)
        ensures
            final(self)@ == old(self)@.swept(now),
    {
        if elapsed(self.last_cleanup, now) < IDLE_NANOS {
            return ;
        }
        retain_active(&mut self.v4, now);
        retain_active(&mut self.v6, now);
        self.last_cleanup = now;
    }

    /// Decides on a request from `ip` that arrives at `now`.
    pub fn check_rate_limit_at(&mut self, ip: IpAddress, now: u128) -> (r: bool)
        ensures
            final(self)@ == old(self)@.checked(ip, now).0,
            r == old(self)@.checked(ip, now).1,
    {
        self.cleanup_old_entries(now);
        match ip {
            IpAddress::V4(a) => {
                let (state, admitted) = step(lookup(&self.v4, a), now, self.max_requests_per_second);
                self.v4.insert(a, state);
                admitted
            },
            IpAddress::V6(a) => {
                let (state, admitted) = step(lookup(&self.v6, a), now, self.max_requests_per_second);
                self.v6.insert(a, state);
                admitted
            },
        }
    }

    /// Decides on a request from `ip` that arrives at the present moment.
    pub fn check_rate_limit(&mut self, ip: IpAddress) -> (r: bool)
        ensures
            exists|now: u128|
                final(self)@ == (#[trigger] old(self)@.checked(ip, now)).0 && r == old(
                    self,
                )@.checked(ip, now).1,
    {
        let now: u128 = self.line.now();
        let r = self.check_rate_limit_at(ip, now);
        assert(self@ == old(self)@.checked(ip, now).0);
        r
    }

    /// Counts the addresses in the table. The count stops at `usize::MAX`.
    pub fn stats(&self) -> (r: RateLimiterStats)
        ensures
            r.tracked_ips == if self@.address_count() <= usize::MAX {
                self@.address_count()
            } else {
                usize::MAX as nat
            },
    {
        let a: usize = self.v4.len();
        let b: usize = self.v6.len();
        RateLimiterStats { tracked_ips: a.saturating_add(b) }
    }
}

/// Why a decoded request is not answered.
#[derive(Debug, Clone, Copy, PartialEq, Eq, Structural)]
pub enum ValidationError {
    InvalidVersion(u8),
    InvalidMode,
    ZeroTransmitTimestamp,
    InvalidStratum(u8),
}

/// Validation of decoded requests.
pub struct PacketValidator;

impl PacketValidator {
    /// The verdict on a request. The checks run in this order: the version
    /// must lie in 1..=4, the mode must be client, the transmit timestamp
    /// must be set, and the stratum must be below 16.
    pub open spec fn spec_validate(packet: NtpPacket) -> Result<(), ValidationError> {
        if packet.version < 1 || packet.version > 4 {
            Err(ValidationError::InvalidVersion(packet.version))
        } else if packet.mode != NtpMode::Client {
            Err(ValidationError::InvalidMode)
        } else if packet.transmit_timestamp.0 == 0 {
            Err(ValidationError::ZeroTransmitTimestamp)
        } else if packet.stratum >= 16 {
            Err(ValidationError::InvalidStratum(packet.stratum))
        } else {
            Ok(())
        }
    }

    pub fn validate_request(packet: &NtpPacket) -> (r: Result<(), ValidationError>)
        ensures
            r == Self::spec_validate(*packet),
    {
        if packet.version < 1 || packet.version > 4 {
            return Err(ValidationError::InvalidVersion(packet.version));
        }
        if packet.mode != NtpMode::Client {
            return Err(ValidationError::InvalidMode);
        }
        if packet.transmit_timestamp.0 == 0 {
            return Err(ValidationError::ZeroTransmitTimestamp);
        }
        if packet.stratum >= 16 {
            return Err(ValidationError::InvalidStratum(packet.stratum));
        }
        Ok(())
    }
}

/// Admission within a window: for an address whose window is still open
/// and has counted `k` requests, the next request is admitted exactly when
/// `k + 1` does not exceed the limit.
pub proof fn lemma_admission_in_window(state: RateLimitState, now: u128, max: u32)
    requires
        spec_elapsed(state.window_start, now) < WINDOW_NANOS,
    ensures
        spec_step(Some(state), now, max).1 <==> state.request_count + 1 <= max,
        spec_step(Some(state), now, max).0.window_start == state.window_start,
{
}

/// Addresses are limited one by one: while no sweep is due, a request from
/// one address leaves the entry of every other address as it was.
pub proof fn lemma_other_addresses_untouched(
    model: LimiterModel,
    ip: IpAddress,
    other: IpAddress,
    now: u128,
)
    requires
        other != ip,
        !model.sweep_due(now),
    ensures
        model.checked(ip, now).0.entry(other) == model.entry(other),
{
}

/// A sweep drops exactly the idle addresses: after a request at `now`, an
/// address other than the asking one has an entry if and only if it had
/// one before and, where a sweep was due, was heard from less than sixty
/// seconds before `now`.
pub proof fn lemma_sweep_keeps_active(model: LimiterModel, ip: IpAddress, other: IpAddress, now: u128)
    requires
        other != ip,
    ensures
        model.checked(ip, now).0.entry(other) == match model.entry(other) {
            Some(state) => if !model.sweep_due(now) || state.spec_active_at(now) {
                Some(state)
            } else {
                None
            },
            None => None,
        },
{
}

/// The entry of an address after a run of requests at the given times.
pub open spec fn spec_run(entry: Option<RateLimitState>, times: Seq<u128>, max: u32) -> Option<
    RateLimitState,
>
    decreases times.len(),
{
    if times.len() == 0 {
        entry
    } else {
        Some(spec_step(spec_run(entry, times.drop_last(), max), times.last(), max).0)
    }
}

/// Whether all of `times` lie in the window that a request at `first`
/// opens: none before it, all less than a second after it.
pub open spec fn within_window(first: u128, times: Seq<u128>) -> bool {
    forall|i: int| 0 <= i < times.len() ==> first <= #[trigger] times[i] < first + WINDOW_NANOS
}

/// A burst from a new address: when `times` holds the arrival times of its
/// first `k` requests, all within one second of the first, the window has
/// counted `k`, and a further request in that window is admitted exactly
/// when `k + 1` does not exceed the limit.
pub proof fn lemma_burst_admission(times: Seq<u128>, next: u128, max: u32)
    requires
        times.len() > 0,
        times.len() < u32::MAX,
        within_window(times[0], times),
        times[0] <= next < times[0] + WINDOW_NANOS,
    ensures
        spec_run(None, times, max) == Some(
            RateLimitState {
                request_count: times.len() as u32,
                window_start: times[0],
                last_request: times.last(),
            },
        ),
        spec_step(spec_run(None, times, max), next, max).1 <==> times.len() + 1 <= max,
    decreases times.len(),
{
    let head = times.drop_last();
    if head.len() == 0 {
        assert(spec_run(None, head, max) == None::<RateLimitState>);
        assert(times.last() == times[0]);
    } else {
        assert(head[0] == times[0]);
        assert(within_window(head[0], head)) by {
            assert forall|i: int| 0 <= i < head.len() implies head[0] <= #[trigger] head[i]
                < head[0] + WINDOW_NANOS by {
                assert(head[i] == times[i]);
            }
        }
        lemma_burst_admission(head, times.last(), max);
    }
}

} // verus!
