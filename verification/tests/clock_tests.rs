use pendulum::clock::{
    extrapolated, ClockSource, GpsNmeaClock, GpsState, GpsSync, GpsTime, PpsMark, SystemClock,
};
use pendulum::packet::NtpTimestamp;
use pendulum::timebase::{elapsed, unix_reading, unix_time_now, Monotonic};

const SECOND: u128 = 1_000_000_000;

#[test]
fn test_system_clock() {
    let clock = SystemClock::new();
    let ts1 = clock.now();
    let line = Monotonic::start();
    while line.now() < 10_000_000 {}
    let ts2 = clock.now();

    assert!(ts2.seconds() >= ts1.seconds());
}

#[test]
fn test_gps_clock_fallback() {
    let clock = GpsNmeaClock::new(10);

    assert_eq!(clock.stratum(), 16);
    assert_eq!(&clock.reference_id(), b"LOCL");
}

#[test]
fn test_gps_clock_with_sync() {
    let mut clock = GpsNmeaClock::new(10);

    let gps_time = NtpTimestamp::from_seconds_and_nanos(3_900_000_000, 0);
    clock.update_gps_time(gps_time, 8);

    assert_eq!(clock.stratum(), 1);
    assert_eq!(&clock.reference_id(), b"GPS\0");
}

#[test]
fn system_clock_is_unsynchronised_and_local() {
    let clock = SystemClock::new();
    assert_eq!(clock.stratum(), 16);
    assert_eq!(&clock.reference_id(), b"LOCL");
    assert_eq!(clock.precision(), -24);
}

#[test]
fn system_clock_reads_the_wall_clock() {
    let before = unix_time_now().unwrap();
    let ts = SystemClock::new().now();
    let after = unix_time_now().unwrap();
    let (secs, nanos) = ts.to_unix();
    assert!(nanos < 1_000_000_000);
    assert!(before.1 < 1_000_000_000);
    assert!(secs as u64 >= before.0);
    assert!(secs as u64 <= after.0);
    assert!(ts.seconds() as u64 >= 2_208_988_800 + 1_700_000_000);
}

#[test]
fn timestamp_of_a_reading_adds_the_epoch_offset() {
    assert_eq!(SystemClock::timestamp_of(None), NtpTimestamp(0));
    assert_eq!(
        SystemClock::timestamp_of(Some((1_691_011_200, 500_000_000))),
        NtpTimestamp(0xE875_4700_8000_0000)
    );
    let reading = SystemClock::get_precise_time().unwrap();
    assert!(reading.1 < 1_000_000_000);
    assert!(reading.0 > 1_700_000_000);
}

#[test]
fn monotonic_line_does_not_run_backwards() {
    let line = Monotonic::start();
    let a = line.now();
    let b = line.now();
    assert!(a <= b);
    assert_eq!(elapsed(5, 12), 7);
    assert_eq!(elapsed(12, 5), 0);
}

#[test]
fn gps_locked_primary_with_pps() {
    let mut clock = GpsNmeaClock::new(30);
    clock.update_gps_time(NtpTimestamp(3_900_000_000u64 << 32), 8);
    let edge = clock.monotonic_now();
    let sample = clock.update_pps_offset(edge, NtpTimestamp(3_900_000_001u64 << 32));
    assert!(sample.first);
    assert_eq!(sample.gps_seconds, 3_900_000_001);
    assert!(sample.since_edge_nanos < SECOND);
    assert_eq!(clock.stratum(), 1);
    assert_eq!(&clock.reference_id(), b"GPS\0");
    assert_eq!(clock.precision(), -20);
    assert!(clock.is_gps_synced());
    assert_eq!(clock.state().pps.map(|m| m.sample_count), Some(1));
    assert!(matches!(clock.calculate_gps_time(), GpsTime::PpsCorrected { .. }));
    let again = clock.update_pps_offset(clock.monotonic_now(), NtpTimestamp(3_900_000_002u64 << 32));
    assert!(!again.first);
    assert_eq!(clock.state().pps.map(|m| m.sample_count), Some(2));
}

#[test]
fn a_fix_goes_stale_after_the_timeout() {
    let mut state = GpsState::new(1);
    state.update_gps_time_at(NtpTimestamp(3_900_000_000u64 << 32), 8, 10 * SECOND);
    assert!(state.synced_at(10 * SECOND));
    assert_eq!(state.stratum_at(10 * SECOND + SECOND - 1), 1);
    assert_eq!(&state.reference_id_at(10 * SECOND + SECOND - 1), b"GPS\0");
    assert_eq!(state.stratum_at(11 * SECOND), 16);
    assert_eq!(state.stratum_at(12 * SECOND), 16);
    assert_eq!(&state.reference_id_at(12 * SECOND), b"LOCL");
    assert_eq!(state.precision_at(12 * SECOND), -24);
    assert!(!state.synced_at(12 * SECOND));
}

#[test]
fn a_stale_fix_degrades_the_running_clock() {
    let mut clock = GpsNmeaClock::new(1);
    clock.update_gps_time(NtpTimestamp(3_900_000_000u64 << 32), 8);
    assert_eq!(clock.stratum(), 1);
    let captured = clock.state().last_sync.unwrap().captured_at;
    while clock.monotonic_now() < captured + 2 * SECOND {}
    assert_eq!(clock.stratum(), 16);
    assert_eq!(&clock.reference_id(), b"LOCL");
}

#[test]
fn fewer_than_three_satellites_do_not_sync() {
    let mut state = GpsState::new(30);
    state.update_gps_time_at(NtpTimestamp(1u64 << 32), 2, 0);
    assert!(!state.synced_at(1));
    assert_eq!(state.stratum_at(1), 16);
    state.update_gps_time_at(NtpTimestamp(1u64 << 32), 3, 0);
    assert!(state.synced_at(1));
    assert_eq!(state.precision_at(1), -20);
}

#[test]
fn a_timeout_of_zero_never_syncs() {
    let mut state = GpsState::new(0);
    state.update_gps_time_at(NtpTimestamp(1u64 << 32), 12, 5);
    assert!(!state.synced_at(5));
}

#[test]
fn the_time_source_is_chosen_in_order() {
    let system_now = NtpTimestamp(42u64 << 32);
    let mut state = GpsState::new(30);
    assert_eq!(state.time_at(7, system_now), GpsTime::Fallback(system_now));

    state.update_gps_time_at(NtpTimestamp(3_900_000_000u64 << 32), 8, 2 * SECOND);
    let at = 5 * SECOND + 500_000_000;
    assert_eq!(
        state.time_at(at, system_now),
        GpsTime::Extrapolated(NtpTimestamp((3_900_000_003u64 << 32) | 0x8000_0000))
    );

    let sample = state.update_pps_offset_at(
        5 * SECOND,
        NtpTimestamp(3_900_000_003u64 << 32),
        at,
        system_now,
    );
    assert_eq!(sample.since_edge_nanos, 500_000_000);
    assert_eq!(sample.gps_seconds, 3_900_000_003);
    assert_eq!(sample.system_time, system_now);
    assert!(sample.first);
    assert_eq!(state.pps, Some(PpsMark { measured_at: at, sample_count: 1 }));
    assert_eq!(state.time_at(at + 4 * SECOND + 999_999_999, system_now), GpsTime::PpsCorrected {
        system_now
    });
    assert!(matches!(state.time_at(at + 5 * SECOND, system_now), GpsTime::Extrapolated(_)));
    assert!(state.pps_fresh_at(at));
    assert!(!state.pps_fresh_at(at + 5 * SECOND));
}

#[test]
fn extrapolation_adds_the_elapsed_time() {
    let sync = GpsSync {
        timestamp: NtpTimestamp((100u64 << 32) | 0xFFFF_FFFF),
        captured_at: 1_000,
        quality: 9,
    };
    assert_eq!(extrapolated(sync, 1_000), NtpTimestamp((100u64 << 32) | 0xFFFF_FFFF));
    assert_eq!(extrapolated(sync, 500), NtpTimestamp((100u64 << 32) | 0xFFFF_FFFF));
    assert_eq!(
        extrapolated(sync, 1_000 + 3 * SECOND + 250_000_000),
        NtpTimestamp((104u64 << 32) | 0x3FFF_FFFF)
    );
    let half = GpsSync { timestamp: NtpTimestamp((7u64 << 32) | 0x8000_0000), ..sync };
    assert_eq!(
        extrapolated(half, 1_000 + 750_000_000),
        NtpTimestamp((8u64 << 32) | 0x4000_0000)
    );
    let late = GpsSync { timestamp: NtpTimestamp(0xFFFF_FFFFu64 << 32), captured_at: 0, quality: 9 };
    assert_eq!(extrapolated(late, 2 * SECOND), NtpTimestamp(1u64 << 32));
}

#[test]
fn pps_samples_are_counted() {
    let mut state = GpsState::new(30);
    let boundary = NtpTimestamp(9u64 << 32);
    let first = state.update_pps_offset_at(0, boundary, 1, NtpTimestamp(0));
    let second = state.update_pps_offset_at(SECOND, boundary, SECOND + 1, NtpTimestamp(0));
    assert!(first.first);
    assert!(!second.first);
    assert_eq!(state.pps, Some(PpsMark { measured_at: SECOND + 1, sample_count: 2 }));
    state.pps = Some(PpsMark { measured_at: 0, sample_count: u32::MAX });
    state.update_pps_offset_at(0, boundary, 3, NtpTimestamp(0));
    assert_eq!(state.pps, Some(PpsMark { measured_at: 3, sample_count: u32::MAX }));
}

#[test]
fn the_time_since_the_epoch_is_split_into_seconds_and_nanoseconds() {
    assert_eq!(unix_reading(None), None);
    assert_eq!(unix_reading(Some(0)), Some((0, 0)));
    assert_eq!(unix_reading(Some(999_999_999)), Some((0, 999_999_999)));
    assert_eq!(
        unix_reading(Some(1_691_011_200_500_000_000)),
        Some((1_691_011_200, 500_000_000))
    );
    assert_eq!(unix_reading(Some(u128::MAX)), Some((u64::MAX, 768_211_455)));
}
