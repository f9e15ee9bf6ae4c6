use clock::message::NTPMessage;
use clock::timestamp::{CodecError, NTPTimeStamp, UtcInstant};

fn instant(unix_seconds: i64, nanos: u32) -> UtcInstant {
    UtcInstant::new(unix_seconds, nanos).unwrap()
}

#[test]
fn decodes_billionth_unix_second() {
    let ts = NTPTimeStamp { seconds: 2_208_988_800 + 1_000_000_000, fraction: 0 };
    assert_eq!(ts.to_instant(), instant(1_000_000_000, 0));
}

#[test]
fn epoch_delta_maps_to_unix_zero() {
    let ts = NTPTimeStamp { seconds: 2_208_988_800, fraction: 0 };
    assert_eq!(ts.to_instant(), instant(0, 0));
}

#[test]
fn half_fraction_is_half_second() {
    let ts = NTPTimeStamp { seconds: 2_208_988_800, fraction: 2_147_483_648 };
    assert_eq!(ts.to_instant(), instant(0, 500_000_000));
}

#[test]
fn fraction_rounds_to_nearest_nanosecond() {
    // 5 * 10^9 / 2^32 = 1.164 ns
    let ts = NTPTimeStamp { seconds: 2_208_988_800, fraction: 5 };
    assert_eq!(ts.to_instant(), instant(0, 1));
    // 7 * 10^9 / 2^32 = 1.63 ns
    let ts = NTPTimeStamp { seconds: 2_208_988_800, fraction: 7 };
    assert_eq!(ts.to_instant(), instant(0, 2));
}

#[test]
fn full_fraction_carries_into_next_second() {
    let ts = NTPTimeStamp { seconds: 2_208_988_800, fraction: u32::MAX };
    assert_eq!(ts.to_instant(), instant(1, 0));
    let ts = NTPTimeStamp { seconds: u32::MAX, fraction: u32::MAX };
    assert_eq!(ts.to_instant(), instant(2_085_978_496, 0));
}

#[test]
fn before_unix_epoch() {
    let ts = NTPTimeStamp { seconds: 0, fraction: 0 };
    assert_eq!(ts.to_instant(), instant(-2_208_988_800, 0));
}

#[test]
fn from_instant_exact_values() {
    let ts = NTPTimeStamp::from_instant(instant(0, 500_000_000)).unwrap();
    assert_eq!(ts, NTPTimeStamp { seconds: 2_208_988_800, fraction: 2_147_483_648 });
    let ts = NTPTimeStamp::from_instant(instant(1_000_000_000, 0)).unwrap();
    assert_eq!(ts, NTPTimeStamp { seconds: 3_208_988_800, fraction: 0 });
    // 10^9 - 1 ns * 2^32 / 10^9 = 4294967291.7
    let ts = NTPTimeStamp::from_instant(instant(0, 999_999_999)).unwrap();
    assert_eq!(ts.fraction, 4_294_967_292);
}

#[test]
fn from_instant_rejects_seconds_outside_ntp_range() {
    assert_eq!(
        NTPTimeStamp::from_instant(instant(-2_208_988_801, 0)),
        Err(CodecError::OutOfRange)
    );
    assert_eq!(
        NTPTimeStamp::from_instant(instant(2_085_978_496, 0)),
        Err(CodecError::OutOfRange)
    );
    assert!(NTPTimeStamp::from_instant(instant(-2_208_988_800, 0)).is_ok());
    assert!(NTPTimeStamp::from_instant(instant(2_085_978_495, 999_999_999)).is_ok());
}

#[test]
fn round_trip_reproduces_instant() {
    let cases = [
        (-2_208_988_800, 0),
        (0, 1),
        (1_000_000_000, 123_456_789),
        (1_700_000_000, 999_999_999),
        (2_085_978_495, 500_000_000),
    ];
    for (secs, nanos) in cases {
        let t = instant(secs, nanos);
        let ts = NTPTimeStamp::from_instant(t).unwrap();
        assert_eq!(ts.to_instant(), t);
    }
}

#[test]
fn instant_new_rejects_whole_second_of_nanos() {
    assert_eq!(UtcInstant::new(0, 1_000_000_000), None);
    assert_eq!(UtcInstant::new(5, 999_999_999), Some(UtcInstant { unix_seconds: 5, nanos: 999_999_999 }));
}

#[test]
fn decode_big_endian_pair() {
    let bytes = [0x83, 0xAA, 0x7E, 0x80, 0x80, 0x00, 0x00, 0x01];
    let ts = NTPTimeStamp::decode(&bytes, 0).unwrap();
    assert_eq!(ts, NTPTimeStamp { seconds: 2_208_988_800, fraction: 2_147_483_649 });
    let again = NTPTimeStamp::decode(&bytes, 0).unwrap();
    assert_eq!(ts, again);
}

#[test]
fn decode_at_offset() {
    let bytes = [9, 9, 0, 0, 0, 1, 0, 0, 0, 2];
    let ts = NTPTimeStamp::decode(&bytes, 2).unwrap();
    assert_eq!(ts, NTPTimeStamp { seconds: 1, fraction: 2 });
}

#[test]
fn decode_short_buffer_fails() {
    let bytes = [1, 2, 3, 4, 5, 6, 7];
    assert_eq!(NTPTimeStamp::decode(&bytes, 0), Err(CodecError::ShortBuffer));
    assert_eq!(NTPTimeStamp::decode(&[], 0), Err(CodecError::ShortBuffer));
    let bytes = [0u8; 10];
    assert_eq!(NTPTimeStamp::decode(&bytes, 3), Err(CodecError::ShortBuffer));
    assert_eq!(NTPTimeStamp::decode(&bytes, usize::MAX), Err(CodecError::ShortBuffer));
}

#[test]
fn new_message_is_zero() {
    let msg = NTPMessage::new();
    assert_eq!(msg.data, [0u8; 48]);
}

#[test]
fn client_message_sets_version_and_mode() {
    let msg = NTPMessage::client();
    assert_eq!(msg.data[0], 0b00_011_011);
    assert!(msg.data[1..].iter().all(|b| *b == 0));
}

#[test]
fn reply_timestamps_are_read_from_their_fields() {
    let mut bytes = vec![0u8; 48];
    bytes[32..40].copy_from_slice(&[0x83, 0xAA, 0x7E, 0x81, 0, 0, 0, 0]);
    bytes[40..48].copy_from_slice(&[0x83, 0xAA, 0x7E, 0x82, 0x40, 0, 0, 0]);
    let msg = NTPMessage::from_reply(&bytes).unwrap();
    assert_eq!(msg.rx_time().unwrap(), NTPTimeStamp { seconds: 2_208_988_801, fraction: 0 });
    assert_eq!(
        msg.tx_time().unwrap(),
        NTPTimeStamp { seconds: 2_208_988_802, fraction: 0x4000_0000 }
    );
    assert_eq!(msg.parse_timestamp(41), Err(CodecError::ShortBuffer));
}

#[test]
fn short_reply_is_refused() {
    let bytes = vec![0u8; 10];
    assert_eq!(NTPMessage::from_reply(&bytes).err(), Some(CodecError::ShortBuffer));
    let bytes = vec![0u8; 47];
    assert!(NTPMessage::from_reply(&bytes).is_err());
}
