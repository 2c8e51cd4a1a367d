use pendulum::nmea::{
    kind, millis, parse_gga, parse_gsv, parse_or_zero, parse_rmc, parse_unsigned,
    rmc_timestamp, split_on, SentenceKind,
};
use pendulum::packet::NtpTimestamp;
use pendulum::stats::{Constellation, SatelliteInfo};

const RMC: &[u8] = b"$GPRMC,123519,A,4807.038,N,01131.000,E,022.4,084.4,230394,003.1,W*6A";
const GGA: &[u8] = b"$GPGGA,123519,4807.038,N,01131.000,E,1,08,0.9,545.4,M,46.9,M,,*47";
const GSV: &[u8] = b"$GPGSV,3,1,11,03,03,111,00,04,15,270,00,06,01,010,00,13,06,292,00*74";

fn sat(prn: u8, elevation: u8, azimuth: u16, snr: u8, constellation: Constellation) -> SatelliteInfo {
    SatelliteInfo { prn, elevation, azimuth, snr, constellation }
}

#[test]
fn fields_are_split_at_every_comma() {
    assert_eq!(split_on(b"a,b,,c", b','), vec![b"a".to_vec(), b"b".to_vec(), vec![], b"c".to_vec()]);
    assert_eq!(split_on(b"", b','), vec![Vec::<u8>::new()]);
    assert_eq!(split_on(b",", b','), vec![Vec::<u8>::new(), Vec::<u8>::new()]);
    assert_eq!(split_on(b"42*7F", b'*'), vec![b"42".to_vec(), b"7F".to_vec()]);
    assert_eq!(split_on(RMC, b',').len(), 12);
}

#[test]
fn numbers_are_read_in_base_ten() {
    assert_eq!(parse_unsigned(b"0", 255), Some(0));
    assert_eq!(parse_unsigned(b"08", 255), Some(8));
    assert_eq!(parse_unsigned(b"255", 255), Some(255));
    assert_eq!(parse_unsigned(b"256", 255), None);
    assert_eq!(parse_unsigned(b"+7", 255), Some(7));
    assert_eq!(parse_unsigned(b"+", 255), None);
    assert_eq!(parse_unsigned(b"", 255), None);
    assert_eq!(parse_unsigned(b"-1", 255), None);
    assert_eq!(parse_unsigned(b"1 ", 255), None);
    assert_eq!(parse_unsigned(b"12a", 255), None);
    assert_eq!(parse_unsigned(b"4294967295", u32::MAX), Some(u32::MAX));
    assert_eq!(parse_unsigned(b"4294967296", u32::MAX), None);
    assert_eq!(parse_unsigned(b"99999999999999999999999", u32::MAX), None);
    assert_eq!(parse_or_zero(b"359", 359), 359);
    assert_eq!(parse_or_zero(b"360", 359), 0);
    assert_eq!(parse_or_zero(b"", 99), 0);
}

#[test]
fn sentences_are_told_apart_by_their_start() {
    assert_eq!(kind(b"$GPRMC,1"), SentenceKind::Rmc);
    assert_eq!(kind(b"$GNRMC"), SentenceKind::Rmc);
    assert_eq!(kind(b"$GLRMC"), SentenceKind::Other);
    assert_eq!(kind(b"$GPGGA,"), SentenceKind::Gga);
    assert_eq!(kind(b"$GNGGA,"), SentenceKind::Gga);
    assert_eq!(kind(b"$GPGSV,"), SentenceKind::Gsv(Constellation::Gps));
    assert_eq!(kind(b"$GLGSV,"), SentenceKind::Gsv(Constellation::Glonass));
    assert_eq!(kind(b"$GAGSV,"), SentenceKind::Gsv(Constellation::Galileo));
    assert_eq!(kind(b"$GBGSV,"), SentenceKind::Gsv(Constellation::BeiDou));
    assert_eq!(kind(b"$GNGSV,"), SentenceKind::Gsv(Constellation::Gnss));
    assert_eq!(kind(b"$GPGLL,"), SentenceKind::Other);
    assert_eq!(kind(b"$GPRM"), SentenceKind::Other);
    assert_eq!(kind(b"GPRMC,1"), SentenceKind::Other);
    assert_eq!(kind(b""), SentenceKind::Other);
}

#[test]
fn milliseconds_follow_the_dot() {
    assert_eq!(millis(b"123519"), 0);
    assert_eq!(millis(b"123519."), 0);
    assert_eq!(millis(b"123519.5"), 5);
    assert_eq!(millis(b"123519.250"), 250);
    assert_eq!(millis(b"123519.00"), 0);
    assert_eq!(millis(b"123519.x"), 0);
    assert_eq!(millis(b"123519,250"), 0);
    assert_eq!(millis(b"123519.1234"), 1234);
}

#[test]
fn rmc_timestamp_moves_unix_time_to_the_ntp_epoch() {
    assert_eq!(rmc_timestamp(None, 0), None);
    assert_eq!(rmc_timestamp(Some(-1), 0), None);
    assert_eq!(rmc_timestamp(Some(0), 1000), None);
    assert_eq!(rmc_timestamp(Some(0), 0), Some(NtpTimestamp(2_208_988_800u64 << 32)));
    assert_eq!(
        rmc_timestamp(Some(1_711_197_319), 500),
        Some(NtpTimestamp((3_920_186_119u64 << 32) | 0x8000_0000))
    );
    assert_eq!(
        rmc_timestamp(Some(1_711_197_319), 999),
        Some(NtpTimestamp::from_seconds_and_nanos(3_920_186_119, 999_000_000))
    );
}

#[test]
fn rmc_of_2024_gives_its_ntp_second() {
    let ts = parse_rmc(b"$GPRMC,123519,A,4807.038,N,01131.000,E,022.4,084.4,230324,003.1,W*6A")
        .unwrap();
    assert_eq!(ts.seconds(), 3_920_186_119);
    assert_eq!(ts.fraction(), 0);
    assert_eq!(ts.to_unix(), (1_711_197_319, 0));
}

#[test]
fn rmc_two_digit_year_counts_from_2000() {
    let ts = parse_rmc(RMC).unwrap();
    assert_eq!(ts.seconds(), 1_834_207_623);
    assert_eq!(ts.fraction(), 0);
    let first = parse_rmc(b"$GNRMC,000000,A,,,,,,,010100,,").unwrap();
    assert_eq!(first, NtpTimestamp(3_155_673_600u64 << 32));
}

#[test]
fn rmc_carries_milliseconds() {
    let ts = parse_rmc(b"$GPRMC,123519.500,A,4807.038,N,01131.000,E,022.4,084.4,230324,003.1,W")
        .unwrap();
    assert_eq!(ts, NtpTimestamp((3_920_186_119u64 << 32) | 0x8000_0000));
    let ts = parse_rmc(b"$GPRMC,123519.00,A,4807.038,N,01131.000,E,022.4,084.4,230324,003.1,W")
        .unwrap();
    assert_eq!(ts, NtpTimestamp(3_920_186_119u64 << 32));
}

#[test]
fn rmc_without_a_valid_fix_is_dropped() {
    assert_eq!(
        parse_rmc(b"$GPRMC,123519,V,4807.038,N,01131.000,E,022.4,084.4,230324,003.1,W*6A"),
        None
    );
    assert_eq!(
        parse_rmc(b"$GPRMC,123519,AA,4807.038,N,01131.000,E,022.4,084.4,230324,003.1,W*6A"),
        None
    );
    assert_eq!(parse_rmc(b"$GPRMC,123519,,,,,,,,230324,,"), None);
}

#[test]
fn malformed_rmc_is_dropped() {
    assert_eq!(parse_rmc(b""), None);
    assert_eq!(parse_rmc(b"$GPRMC,123519,A,4807.038,N,01131.000,E,022.4,084.4"), None);
    assert_eq!(parse_rmc(b"$GPRMC,12351,A,,,,,,,230324,,"), None);
    assert_eq!(parse_rmc(b"$GPRMC,123519,A,,,,,,,23032,,"), None);
    assert_eq!(parse_rmc(b"$GPRMC,123519,A,,,,,,,2303244,,"), None);
    assert_eq!(parse_rmc(b"$GPRMC,253519,A,,,,,,,230324,,"), None);
    assert_eq!(parse_rmc(b"$GPRMC,123519,A,,,,,,,320324,,"), None);
    assert_eq!(parse_rmc(b"$GPRMC,123519,A,,,,,,,231324,,"), None);
    assert_eq!(parse_rmc(b"$GPRMC,12x519,A,,,,,,,230324,,"), None);
    assert_eq!(parse_rmc(b"$GPRMC,123519,A,,,,,,,2303\xC3\xA9,,"), None);
    assert_eq!(parse_rmc(b"$GPRMC,123519,A,,,,,,,23032\xFF,,"), None);
    assert_eq!(parse_rmc(b"$GPRMC,123519.1234,A,,,,,,,230324,,"), None);
}

#[test]
fn gga_gives_the_satellite_count() {
    assert_eq!(parse_gga(GGA), Some(8));
    assert_eq!(parse_gga(b"$GPGGA,123519,4807.038,N,01131.000,E,1,12"), Some(12));
    assert_eq!(parse_gga(b"$GPGGA,123519,4807.038,N,01131.000,E,1"), None);
    assert_eq!(parse_gga(b"$GPGGA,123519,4807.038,N,01131.000,E,1,,0.9"), None);
    assert_eq!(parse_gga(b"$GPGGA,123519,4807.038,N,01131.000,E,1,256,0.9"), None);
    assert_eq!(parse_gga(b"$GPGGA,123519,4807.038,N,01131.000,E,1,x,0.9"), None);
}

#[test]
fn gsv_gives_up_to_four_satellites() {
    assert_eq!(
        parse_gsv(GSV),
        Some(vec![
            sat(3, 3, 111, 0, Constellation::Gps),
            sat(4, 15, 270, 0, Constellation::Gps),
            sat(6, 1, 10, 0, Constellation::Gps),
            sat(13, 6, 292, 0, Constellation::Gps),
        ])
    );
    assert_eq!(
        parse_gsv(b"$GLGSV,1,1,02,65,45,120,38,72,10,359,*5C"),
        Some(vec![
            sat(65, 45, 120, 38, Constellation::Glonass),
            sat(72, 10, 359, 0, Constellation::Glonass),
        ])
    );
    assert_eq!(
        parse_gsv(b"$GAGSV,1,1,01,07,90,000,99*4A"),
        Some(vec![sat(7, 90, 0, 99, Constellation::Galileo)])
    );
}

#[test]
fn gsv_skips_empty_and_partial_slots() {
    assert_eq!(
        parse_gsv(b"$GBGSV,1,1,02,,,,,21,30,045,41*7A"),
        Some(vec![sat(21, 30, 45, 41, Constellation::BeiDou)])
    );
    assert_eq!(
        parse_gsv(b"$GNGSV,1,1,02,00,10,010,10,05,20,020,20"),
        Some(vec![sat(5, 20, 20, 20, Constellation::Gnss)])
    );
    assert_eq!(
        parse_gsv(b"$GPGSV,1,1,02,05,20,020,20,06,30,030"),
        Some(vec![sat(5, 20, 20, 20, Constellation::Gps)])
    );
    assert_eq!(parse_gsv(b"$GPGSV,1,1,00*79"), None);
    assert_eq!(parse_gsv(b"$GPGSV,1,1"), None);
    assert_eq!(parse_gsv(GGA), None);
    assert_eq!(parse_gsv(b""), None);
}

#[test]
fn gsv_values_out_of_range_count_as_zero() {
    assert_eq!(
        parse_gsv(b"$GPGSV,1,1,01,09,91,360,100*00"),
        Some(vec![sat(9, 0, 0, 0, Constellation::Gps)])
    );
    assert_eq!(
        parse_gsv(b"$GPGSV,1,1,01,09,xx,,yy"),
        Some(vec![sat(9, 0, 0, 0, Constellation::Gps)])
    );
    assert_eq!(parse_gsv(b"$GPGSV,1,1,01,256,10,010,10"), None);
}

#[test]
fn constellations_have_names() {
    assert_eq!(Constellation::Gps.name(), "GPS");
    assert_eq!(Constellation::Glonass.name(), "GLONASS");
    assert_eq!(Constellation::Galileo.name(), "Galileo");
    assert_eq!(Constellation::BeiDou.name(), "BeiDou");
    assert_eq!(Constellation::Gnss.name(), "GNSS");
}
