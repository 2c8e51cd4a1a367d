use pendulum::packet::{LeapIndicator, NtpMode, NtpPacket, NtpTimestamp};
use pendulum::security::{
    step, IpAddress, IpFilter, PacketValidator, RateLimitState, RateLimiter,
    ValidationError,
};

const SECOND: u128 = 1_000_000_000;

fn request() -> NtpPacket {
    NtpPacket {
        leap_indicator: LeapIndicator::NoWarning,
        version: 4,
        mode: NtpMode::Client,
        stratum: 0,
        poll: 6,
        precision: -20,
        root_delay: 0,
        root_dispersion: 0,
        reference_identifier: 0,
        reference_timestamp: NtpTimestamp(0),
        originate_timestamp: NtpTimestamp(0),
        receive_timestamp: NtpTimestamp(0),
        transmit_timestamp: NtpTimestamp::from_seconds_and_nanos(3_900_000_000, 0),
    }
}

#[test]
fn test_rate_limiter() {
    let mut limiter = RateLimiter::new(10);
    let ip = IpAddress::v4(127, 0, 0, 1);

    for _ in 0..10 {
        assert!(limiter.check_rate_limit(ip));
    }

    assert!(!limiter.check_rate_limit(ip));
}

#[test]
fn test_ip_filter_blacklist() {
    let filter = IpFilter::new(vec![], vec![IpAddress::v4(192, 168, 1, 100)]);

    let blocked_ip = IpAddress::v4(192, 168, 1, 100);
    let allowed_ip = IpAddress::v4(192, 168, 1, 101);

    assert!(!filter.is_allowed(blocked_ip));
    assert!(filter.is_allowed(allowed_ip));
}

#[test]
fn test_ip_filter_whitelist() {
    let filter = IpFilter::new(vec![IpAddress::v4(192, 168, 1, 100)], vec![]);

    let allowed_ip = IpAddress::v4(192, 168, 1, 100);
    let blocked_ip = IpAddress::v4(192, 168, 1, 101);

    assert!(filter.is_allowed(allowed_ip));
    assert!(!filter.is_allowed(blocked_ip));
}

#[test]
fn v4_packs_the_octets() {
    assert_eq!(IpAddress::v4(192, 168, 1, 100), IpAddress::V4(0xC0A8_0164));
    assert_eq!(IpAddress::v4(0, 0, 0, 0), IpAddress::V4(0));
    assert_eq!(IpAddress::v4(255, 255, 255, 255), IpAddress::V4(u32::MAX));
}

#[test]
fn deny_list_wins_over_allow_list() {
    let ip = IpAddress::v4(10, 0, 0, 1);
    let filter = IpFilter::new(vec![ip], vec![ip]);
    assert!(!filter.is_allowed(ip));
}

#[test]
fn empty_lists_admit_everyone() {
    let filter = IpFilter::new(vec![], vec![]);
    assert!(filter.is_allowed(IpAddress::v4(1, 2, 3, 4)));
    assert!(filter.is_allowed(IpAddress::V6(1)));
}

#[test]
fn an_embedded_v4_address_is_another_address() {
    let filter = IpFilter::new(vec![], vec![IpAddress::V4(0x7F00_0001)]);
    assert!(filter.is_allowed(IpAddress::V6(0xFFFF_7F00_0001)));
    assert!(!filter.is_allowed(IpAddress::V4(0x7F00_0001)));
}

#[test]
fn entries_that_are_no_address_are_left_out() {
    let a = IpAddress::v4(192, 168, 1, 100);
    let b = IpAddress::V6(0x2001_0db8 << 96);
    let filter = IpFilter::from_entries(&vec![None, Some(a), None, Some(b)], &vec![None]);
    assert_eq!(filter.whitelist, vec![a, b]);
    assert!(filter.blacklist.is_empty());
    assert!(filter.is_allowed(a));
    assert!(!filter.is_allowed(IpAddress::v4(192, 168, 1, 101)));
}

#[test]
fn a_burst_is_admitted_up_to_the_limit() {
    let mut limiter = RateLimiter::new(10);
    let ip = IpAddress::v4(203, 0, 113, 7);
    let start = 5 * SECOND;
    let mut admitted = 0;
    for i in 0..15u128 {
        if limiter.check_rate_limit_at(ip, start + i * 6_000_000) {
            assert!(i < 10);
            admitted += 1;
        } else {
            assert!(i >= 10);
        }
    }
    assert_eq!(admitted, 10);
}

#[test]
fn the_window_reopens_after_one_second() {
    let mut limiter = RateLimiter::new(2);
    let ip = IpAddress::v4(198, 51, 100, 1);
    assert!(limiter.check_rate_limit_at(ip, 0));
    assert!(limiter.check_rate_limit_at(ip, 1));
    assert!(!limiter.check_rate_limit_at(ip, SECOND - 1));
    assert!(limiter.check_rate_limit_at(ip, SECOND));
    assert!(limiter.check_rate_limit_at(ip, SECOND + 1));
    assert!(!limiter.check_rate_limit_at(ip, SECOND + 2));
}

#[test]
fn addresses_are_limited_one_by_one() {
    let mut limiter = RateLimiter::new(1);
    let a = IpAddress::v4(10, 0, 0, 1);
    let b = IpAddress::v4(10, 0, 0, 2);
    let c = IpAddress::V6(0x0A00_0001);
    assert!(limiter.check_rate_limit_at(a, 0));
    assert!(limiter.check_rate_limit_at(b, 0));
    assert!(limiter.check_rate_limit_at(c, 0));
    assert!(!limiter.check_rate_limit_at(a, 1));
    assert!(!limiter.check_rate_limit_at(b, 1));
    assert!(!limiter.check_rate_limit_at(c, 1));
    assert_eq!(limiter.stats().tracked_ips, 3);
}

#[test]
fn a_limit_of_zero_refuses_a_new_address() {
    let mut limiter = RateLimiter::new(0);
    assert!(!limiter.check_rate_limit_at(IpAddress::v4(10, 0, 0, 1), 0));
}

#[test]
fn step_counts_within_the_window() {
    let (state, admitted) = step(None, 7, 3);
    assert!(admitted);
    assert_eq!(state, RateLimitState { request_count: 1, window_start: 7, last_request: 7 });
    let (state, admitted) = step(Some(state), 9, 3);
    assert!(admitted);
    assert_eq!(state, RateLimitState { request_count: 2, window_start: 7, last_request: 9 });
    let (state, admitted) = step(Some(state), 10, 3);
    assert!(admitted);
    let (state, admitted) = step(Some(state), 11, 3);
    assert!(!admitted);
    assert_eq!(state, RateLimitState { request_count: 4, window_start: 7, last_request: 11 });
    let (state, admitted) = step(Some(state), 7 + SECOND, 3);
    assert!(admitted);
    assert_eq!(
        state,
        RateLimitState { request_count: 1, window_start: 7 + SECOND, last_request: 7 + SECOND }
    );
}

#[test]
fn step_stops_counting_at_the_largest_count() {
    let full = RateLimitState { request_count: u32::MAX, window_start: 0, last_request: 0 };
    let (state, admitted) = step(Some(full), 1, u32::MAX);
    assert!(!admitted);
    assert_eq!(state.request_count, u32::MAX);
}

#[test]
fn idle_addresses_are_swept_after_a_minute() {
    let mut limiter = RateLimiter::new(5);
    let start = limiter.monotonic_now();
    let old = IpAddress::v4(10, 0, 0, 1);
    let old6 = IpAddress::V6(77);
    let recent = IpAddress::v4(10, 0, 0, 2);
    assert!(limiter.check_rate_limit_at(old, start + SECOND));
    assert!(limiter.check_rate_limit_at(old6, start + SECOND));
    assert!(limiter.check_rate_limit_at(recent, start + 30 * SECOND));
    assert_eq!(limiter.stats().tracked_ips, 3);
    let newcomer = IpAddress::v4(10, 0, 0, 3);
    assert!(limiter.check_rate_limit_at(newcomer, start + 61 * SECOND));
    assert_eq!(limiter.stats().tracked_ips, 2);
    limiter.cleanup_old_entries(start + 62 * SECOND);
    assert_eq!(limiter.stats().tracked_ips, 2);
    limiter.cleanup_old_entries(start + 200 * SECOND);
    assert_eq!(limiter.stats().tracked_ips, 0);
}

#[test]
fn validation_accepts_a_client_request() {
    assert_eq!(PacketValidator::validate_request(&request()), Ok(()));
    let mut old = request();
    old.version = 1;
    old.stratum = 15;
    assert_eq!(PacketValidator::validate_request(&old), Ok(()));
}

#[test]
fn validation_rejects_versions_outside_one_to_four() {
    let mut packet = request();
    packet.version = 0;
    assert_eq!(
        PacketValidator::validate_request(&packet),
        Err(ValidationError::InvalidVersion(0))
    );
    packet.version = 5;
    assert_eq!(
        PacketValidator::validate_request(&packet),
        Err(ValidationError::InvalidVersion(5))
    );
}

#[test]
fn validation_rejects_mode_server() {
    let mut packet = request();
    packet.mode = NtpMode::Server;
    assert_eq!(PacketValidator::validate_request(&packet), Err(ValidationError::InvalidMode));
}

#[test]
fn validation_rejects_a_zero_transmit_timestamp() {
    let mut packet = request();
    packet.transmit_timestamp = NtpTimestamp(0);
    assert_eq!(
        PacketValidator::validate_request(&packet),
        Err(ValidationError::ZeroTransmitTimestamp)
    );
}

#[test]
fn validation_rejects_stratum_sixteen() {
    let mut packet = request();
    packet.stratum = 16;
    assert_eq!(
        PacketValidator::validate_request(&packet),
        Err(ValidationError::InvalidStratum(16))
    );
}

#[test]
fn validation_reports_the_first_fault() {
    let mut packet = request();
    packet.version = 9;
    packet.mode = NtpMode::Broadcast;
    packet.transmit_timestamp = NtpTimestamp(0);
    packet.stratum = 200;
    assert_eq!(
        PacketValidator::validate_request(&packet),
        Err(ValidationError::InvalidVersion(9))
    );
    packet.version = 4;
    assert_eq!(PacketValidator::validate_request(&packet), Err(ValidationError::InvalidMode));
    packet.mode = NtpMode::Client;
    assert_eq!(
        PacketValidator::validate_request(&packet),
        Err(ValidationError::ZeroTransmitTimestamp)
    );
}
