use rust_uuid::clock::{clock_reading, read_clock, UnixTime};
use rust_uuid::error::ClockError;
use rust_uuid::hex::hex_char_value;
use rust_uuid::node::NodeId;
use std::hash::Hasher;

#[test]
fn node_from_hash_takes_the_six_low_bytes() {
    let node = NodeId::from_hash(0x1122_3344_5566_7788);
    assert_eq!(node.octets(), [0x88, 0x77, 0x66, 0x55, 0x44, 0xb3]);
}

#[test]
fn node_from_hash_marks_the_last_byte() {
    assert_eq!(NodeId::from_hash(0).octets(), [0, 0, 0, 0, 0, 0x80]);
    assert_eq!(NodeId::from_hash(u64::MAX).octets(), [0xff; 6]);
    assert_eq!(
        NodeId::from_hash(0x0000_7f00_0000_0001).octets(),
        [0x01, 0, 0, 0, 0, 0xff]
    );
    assert_eq!(
        NodeId::from_hash(0xffff_8100_0000_0000).octets(),
        [0, 0, 0, 0, 0, 0x81]
    );
}

#[test]
fn node_from_bytes_marks_the_last_byte() {
    assert_eq!(NodeId::from_bytes([1, 2, 3, 4, 5, 6]).octets(), [1, 2, 3, 4, 5, 0x86]);
    assert_eq!(NodeId::from_bytes([1, 2, 3, 4, 5, 0x86]).octets(), [1, 2, 3, 4, 5, 0x86]);
    assert_eq!(NodeId::from_bytes([0; 6]).octets(), [0, 0, 0, 0, 0, 0x80]);
}

#[test]
fn node_of_a_process_is_stable_and_marked() {
    let first = NodeId::from_process_id(12345);
    let second = NodeId::from_process_id(12345);
    assert_eq!(first, second);
    assert!(first.octets()[5] >= 0x80);
    let mut distinct = std::collections::HashSet::new();
    for pid in 0..256u32 {
        let node = NodeId::from_process_id(pid);
        assert!(node.octets()[5] >= 0x80);
        distinct.insert(node.octets());
    }
    assert!(distinct.len() > 250);
}

#[test]
fn node_of_a_process_is_the_hash_of_its_number() {
    let mut hasher = std::collections::hash_map::DefaultHasher::new();
    hasher.write(&77u32.to_le_bytes());
    assert_eq!(NodeId::from_process_id(77), NodeId::from_hash(hasher.finish()));
}

#[test]
fn clock_reads_a_time_of_this_century() {
    let time = read_clock().unwrap();
    assert!(time.secs > 1_600_000_000);
    assert!(time.secs < 4_102_444_800);
    assert!(time.nanos < 1_000_000_000);
}

#[test]
fn clock_does_not_run_backwards_by_much() {
    let first = read_clock().unwrap();
    let second = read_clock().unwrap();
    assert!(second.secs + 1 >= first.secs);
}

#[test]
fn hex_values_of_both_cases() {
    for (value, c) in "0123456789abcdef".chars().enumerate() {
        assert_eq!(hex_char_value(c), Some(value as u8));
    }
    for (value, c) in "ABCDEF".chars().enumerate() {
        assert_eq!(hex_char_value(c), Some(10 + value as u8));
    }
    for c in ['g', 'G', '-', ' ', '/', ':', '@', '`', '\u{e9}', '\u{ff10}'] {
        assert_eq!(hex_char_value(c), None);
    }
}

#[test]
fn clock_that_gave_a_time() {
    assert_eq!(
        clock_reading(Some((1_497_624_119, 1234))),
        Ok(UnixTime { secs: 1_497_624_119, nanos: 1234 })
    );
    assert_eq!(clock_reading(Some((0, 0))), Ok(UnixTime { secs: 0, nanos: 0 }));
    assert_eq!(
        clock_reading(Some((u64::MAX, 999_999_999))),
        Ok(UnixTime { secs: u64::MAX, nanos: 999_999_999 })
    );
}

#[test]
fn clock_that_gave_nothing_fails() {
    assert_eq!(clock_reading(None), Err(ClockError));
}
