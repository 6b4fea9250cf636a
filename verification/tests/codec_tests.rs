use robot_framework_rust::codec::deserialize;
use robot_framework_rust::time::Time;
use robot_framework_rust::{BaseMessage, MessageId};

fn message(id: u128, sec: i64, nsec: u32, source: &str, topic: &str) -> BaseMessage {
    BaseMessage {
        id: MessageId(id),
        timestamp: Time::new(sec, nsec),
        source: source.to_string(),
        topic: topic.to_string(),
    }
}

#[test]
fn serialize_produces_the_documented_frame() {
    let m = message(1, 2, 3, "A", "B");
    let bytes = m.serialize();
    let mut expected: Vec<u8> = Vec::new();
    expected.extend_from_slice(&1u128.to_le_bytes()); // id
    expected.push(0); // sign of the seconds
    expected.extend_from_slice(&2u64.to_le_bytes()); // seconds magnitude
    expected.extend_from_slice(&3u32.to_le_bytes()); // nanoseconds
    expected.extend_from_slice(&1u64.to_le_bytes()); // source length
    expected.extend_from_slice(&(u32::from('A')).to_le_bytes());
    expected.extend_from_slice(&1u64.to_le_bytes()); // topic length
    expected.extend_from_slice(&(u32::from('B')).to_le_bytes());
    assert_eq!(bytes, expected);
}

#[test]
fn serialize_then_deserialize_round_trips() {
    let m = message(
        0xfeed_beef_0123,
        1_700_000_000,
        999_999_999,
        "/sensors/lidar",
        "sensor/points",
    );
    let bytes = m.serialize();
    let d = deserialize(&bytes).expect("own frames decode");
    assert_eq!(d.id, m.id);
    assert_eq!(d.timestamp, m.timestamp);
    assert_eq!(d.source.iter().collect::<String>(), m.source);
    assert_eq!(d.topic.iter().collect::<String>(), m.topic);
}

#[test]
fn negative_seconds_round_trip() {
    let m = message(7, -5, 11, "a", "b");
    let bytes = m.serialize();
    let d = deserialize(&bytes).expect("negative seconds decode");
    assert_eq!(d.timestamp.sec, -5);
    assert_eq!(d.timestamp.nsec, 11);
    let m = message(7, i64::MIN, 0, "", "");
    let d = deserialize(&m.serialize()).expect("extreme seconds decode");
    assert_eq!(d.timestamp.sec, i64::MIN);
}

#[test]
fn unicode_contents_round_trip() {
    let m = message(9, 0, 0, "nœud/λ", "topic/⊕");
    let d = deserialize(&m.serialize()).expect("unicode decodes");
    assert_eq!(d.source.iter().collect::<String>(), "nœud/λ");
    assert_eq!(d.topic.iter().collect::<String>(), "topic/⊕");
}

#[test]
fn malformed_frames_are_refused() {
    let m = message(1, 2, 3, "A", "B");
    let good = m.serialize();
    // Trailing garbage.
    let mut long = good.clone();
    long.push(0);
    assert!(deserialize(&long).is_none());
    // Truncated.
    assert!(deserialize(&good[..good.len() - 1]).is_none());
    // A sign byte that is neither 0 nor 1.
    let mut bad_sign = good.clone();
    bad_sign[16] = 2;
    assert!(deserialize(&bad_sign).is_none());
    // A negative zero is not canonical.
    let mut neg_zero = good.clone();
    neg_zero[16] = 1;
    for b in neg_zero.iter_mut().skip(17).take(8) {
        *b = 0;
    }
    assert!(deserialize(&neg_zero).is_none());
    // A surrogate scalar is not a character.
    let mut bad_char = good.clone();
    let at = good.len() - 4;
    bad_char[at..].copy_from_slice(&0xD800u32.to_le_bytes());
    assert!(deserialize(&bad_char).is_none());
    // An empty input certainly is not a frame.
    assert!(deserialize(&[]).is_none());
}
