use pendulum::packet::{LeapIndicator, NtpError, NtpMode, NtpPacket, NtpTimestamp};

fn client_request() -> NtpPacket {
    NtpPacket {
        leap_indicator: LeapIndicator::NoWarning,
        version: 4,
        mode: NtpMode::Client,
        stratum: 0,
        poll: 6,
        precision: -18,
        root_delay: 0x0001_0203,
        root_dispersion: 0x0405_0607,
        reference_identifier: 0x0809_0A0B,
        reference_timestamp: NtpTimestamp(0x1111_2222_3333_4444),
        originate_timestamp: NtpTimestamp(0x5555_6666_7777_8888),
        receive_timestamp: NtpTimestamp(0x9999_AAAA_BBBB_CCCC),
        transmit_timestamp: NtpTimestamp(0xDDDD_EEEE_FFFF_0001),
    }
}

#[test]
fn test_ntp_timestamp_conversion() {
    let ts = NtpTimestamp::from_seconds_and_nanos(3_900_000_000, 500_000_000);
    assert_eq!(ts.seconds(), 3_900_000_000);

    let be = ts.to_be();
    let ts2 = NtpTimestamp::from_be(be);
    assert_eq!(ts, ts2);
}

#[test]
fn test_packet_serialization() {
    let packet = NtpPacket::new_server_response();
    let bytes = packet.to_bytes();
    let parsed = NtpPacket::from_bytes(&bytes).unwrap();

    assert_eq!(parsed.version, 4);
    assert_eq!(parsed.mode, NtpMode::Server);
    assert_eq!(parsed.stratum, 1);
}

#[test]
fn timestamp_halves_have_exact_values() {
    let ts = NtpTimestamp::from_seconds_and_nanos(3_900_000_000, 500_000_000);
    assert_eq!(ts.0, 0xE875_4700_8000_0000);
    assert_eq!(ts.fraction(), 2_147_483_648);
    let ts = NtpTimestamp::from_seconds_and_nanos(1, 123_000_000);
    assert_eq!(ts.seconds(), 1);
    assert_eq!(ts.fraction(), 528_280_977);
}

#[test]
fn timestamp_seconds_wrap_at_32_bits() {
    let ts = NtpTimestamp::from_seconds_and_nanos(0x1_0000_0005, 0);
    assert_eq!(ts.seconds(), 5);
    assert_eq!(ts.fraction(), 0);
}

#[test]
fn to_be_is_the_big_endian_form() {
    let ts = NtpTimestamp(0x0102_0304_0506_0708);
    assert_eq!(ts.to_be().to_ne_bytes(), [1, 2, 3, 4, 5, 6, 7, 8]);
    let back = NtpTimestamp::from_be(u64::from_ne_bytes([1, 2, 3, 4, 5, 6, 7, 8]));
    assert_eq!(back, ts);
}

#[test]
fn from_unix_adds_the_epoch_offset() {
    let ts = NtpTimestamp::from_unix(1_691_011_200, 500_000_000);
    assert_eq!(ts.seconds(), 3_900_000_000);
    assert_eq!(ts.fraction(), 2_147_483_648);
    assert_eq!(NtpTimestamp::from_unix(0, 0), NtpTimestamp(2_208_988_800u64 << 32));
}

#[test]
fn to_unix_subtracts_the_epoch_offset() {
    let ts = NtpTimestamp::from_seconds_and_nanos(3_900_000_000, 500_000_000);
    assert_eq!(ts.to_unix(), (1_691_011_200, 500_000_000));
    assert_eq!(NtpTimestamp(0).to_unix(), (-2_208_988_800, 0));
}

#[test]
fn unix_round_trip_is_within_one_nanosecond() {
    let cases: [(u64, u32); 6] = [
        (0, 0),
        (1, 1),
        (1_700_000_000, 999_999_999),
        (764_426_119, 123_456_789),
        (2_085_978_495, 500_000_001),
        (946_684_800, 333_333_333),
    ];
    for (secs, nanos) in cases {
        let (s, n) = NtpTimestamp::from_unix(secs, nanos).to_unix();
        assert_eq!(s, secs as i64);
        assert!(n == nanos || n + 1 == nanos);
    }
}

#[test]
fn default_timestamp_is_unset() {
    assert_eq!(NtpTimestamp::default(), NtpTimestamp(0));
}

#[test]
fn server_response_has_the_documented_octets() {
    let bytes = NtpPacket::new_server_response().to_bytes();
    assert_eq!(bytes.len(), 48);
    assert_eq!(bytes[0], 0x24);
    assert_eq!(bytes[1], 1);
    assert_eq!(bytes[2], 4);
    assert_eq!(bytes[3], 0xEC);
    assert_eq!(&bytes[4..12], &[0u8; 8]);
    assert_eq!(&bytes[12..16], b"GPS\0");
    assert_eq!(&bytes[16..48], &[0u8; 32]);
}

#[test]
fn encode_is_big_endian_at_fixed_offsets() {
    let bytes = client_request().to_bytes();
    assert_eq!(bytes[0], 0x23);
    assert_eq!(bytes[1], 0);
    assert_eq!(bytes[2], 6);
    assert_eq!(bytes[3], 0xEE);
    assert_eq!(&bytes[4..8], &[0x00, 0x01, 0x02, 0x03]);
    assert_eq!(&bytes[8..12], &[0x04, 0x05, 0x06, 0x07]);
    assert_eq!(&bytes[12..16], &[0x08, 0x09, 0x0A, 0x0B]);
    assert_eq!(&bytes[16..24], &[0x11, 0x11, 0x22, 0x22, 0x33, 0x33, 0x44, 0x44]);
    assert_eq!(&bytes[24..32], &[0x55, 0x55, 0x66, 0x66, 0x77, 0x77, 0x88, 0x88]);
    assert_eq!(&bytes[32..40], &[0x99, 0x99, 0xAA, 0xAA, 0xBB, 0xBB, 0xCC, 0xCC]);
    assert_eq!(&bytes[40..48], &[0xDD, 0xDD, 0xEE, 0xEE, 0xFF, 0xFF, 0x00, 0x01]);
}

#[test]
fn decode_undoes_encode() {
    let mut packet = client_request();
    for version in 1..=4u8 {
        for li in [
            LeapIndicator::NoWarning,
            LeapIndicator::LastMinute61Seconds,
            LeapIndicator::LastMinute59Seconds,
            LeapIndicator::AlarmCondition,
        ] {
            packet.version = version;
            packet.leap_indicator = li;
            packet.poll = -(version as i8);
            let parsed = NtpPacket::from_bytes(&packet.to_bytes()).unwrap();
            assert_eq!(parsed, packet);
        }
    }
}

#[test]
fn decode_rejects_short_datagrams() {
    let bytes = [0x23u8; 47];
    assert_eq!(
        NtpPacket::from_bytes(&bytes),
        Err(NtpError::InvalidSize { expected: 48, actual: 47 })
    );
    assert_eq!(
        NtpPacket::from_bytes(&[]),
        Err(NtpError::InvalidSize { expected: 48, actual: 0 })
    );
}

#[test]
fn decode_rejects_versions_outside_one_to_four() {
    let mut bytes = client_request().to_bytes();
    bytes[0] = 0x03;
    assert_eq!(NtpPacket::from_bytes(&bytes), Err(NtpError::InvalidVersion(0)));
    bytes[0] = (5 << 3) | 3;
    assert_eq!(NtpPacket::from_bytes(&bytes), Err(NtpError::InvalidVersion(5)));
    bytes[0] = (7 << 3) | 3;
    assert_eq!(NtpPacket::from_bytes(&bytes), Err(NtpError::InvalidVersion(7)));
    bytes[0] = (1 << 3) | 3;
    assert_eq!(NtpPacket::from_bytes(&bytes).unwrap().version, 1);
}

#[test]
fn decode_ignores_octets_past_the_header() {
    let header = client_request().to_bytes();
    let mut datagram = header.to_vec();
    datagram.extend_from_slice(&[0xAB; 20]);
    assert_eq!(NtpPacket::from_bytes(&datagram), Ok(client_request()));
}

#[test]
fn decode_reads_signed_poll_and_precision() {
    let mut bytes = client_request().to_bytes();
    bytes[2] = 0x80;
    bytes[3] = 0xFF;
    let parsed = NtpPacket::from_bytes(&bytes).unwrap();
    assert_eq!(parsed.poll, -128);
    assert_eq!(parsed.precision, -1);
}

#[test]
fn every_mode_is_read_from_three_bits() {
    assert_eq!(NtpMode::from_u8(0), Ok(NtpMode::Reserved));
    assert_eq!(NtpMode::from_u8(1), Ok(NtpMode::SymmetricActive));
    assert_eq!(NtpMode::from_u8(2), Ok(NtpMode::SymmetricPassive));
    assert_eq!(NtpMode::from_u8(3), Ok(NtpMode::Client));
    assert_eq!(NtpMode::from_u8(4), Ok(NtpMode::Server));
    assert_eq!(NtpMode::from_u8(5), Ok(NtpMode::Broadcast));
    assert_eq!(NtpMode::from_u8(6), Ok(NtpMode::NtpControlMessage));
    assert_eq!(NtpMode::from_u8(7), Ok(NtpMode::ReservedPrivate));
    assert_eq!(NtpMode::from_u8(0xFB), Ok(NtpMode::Client));
    assert_eq!(NtpMode::Server.to_u8(), 4);
}

#[test]
fn leap_indicator_is_read_from_two_bits() {
    assert_eq!(LeapIndicator::from(0), LeapIndicator::NoWarning);
    assert_eq!(LeapIndicator::from(1), LeapIndicator::LastMinute61Seconds);
    assert_eq!(LeapIndicator::from(2), LeapIndicator::LastMinute59Seconds);
    assert_eq!(LeapIndicator::from(3), LeapIndicator::AlarmCondition);
    assert_eq!(LeapIndicator::from(0xFE), LeapIndicator::LastMinute59Seconds);
    assert_eq!(LeapIndicator::AlarmCondition.to_u8(), 3);
}

#[test]
fn client_requests_need_version_three_or_four() {
    let mut packet = client_request();
    assert!(packet.is_valid_client_request());
    packet.version = 3;
    assert!(packet.is_valid_client_request());
    packet.version = 2;
    assert!(!packet.is_valid_client_request());
    packet.version = 4;
    packet.mode = NtpMode::Server;
    assert!(!packet.is_valid_client_request());
    packet.mode = NtpMode::Client;
    packet.transmit_timestamp = NtpTimestamp(0);
    assert!(!packet.is_valid_client_request());
}
