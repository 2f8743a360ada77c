use rust_uuid::clock::UnixTime;
use rust_uuid::generate::{generate_v1_at, generate_v3_in, generate_v5_in};
use rust_uuid::node::NodeId;
use rust_uuid::value::{UuidValue, Version};
use uuid::{Builder, ContextV1, Timestamp, Uuid};

fn sample(seed: u64) -> [u8; 16] {
    let mut state = seed.wrapping_mul(0x9E37_79B9_7F4A_7C15).wrapping_add(0x1234_5678_9abc_def1);
    let mut bytes = [0u8; 16];
    for b in bytes.iter_mut() {
        state ^= state << 13;
        state ^= state >> 7;
        state ^= state << 17;
        *b = (state >> 32) as u8;
    }
    bytes
}

#[test]
fn canonical_string_agrees_with_hyphenated() {
    for seed in 0..2000 {
        let bytes = sample(seed);
        assert_eq!(
            UuidValue::from_bytes(bytes).to_canonical_string(),
            Uuid::from_bytes(bytes).hyphenated().to_string()
        );
    }
}

#[test]
fn simple_hex_agrees_with_simple() {
    for seed in 0..2000 {
        let bytes = sample(seed);
        assert_eq!(
            UuidValue::from_bytes(bytes).to_simple_hex(),
            Uuid::from_bytes(bytes).simple().to_string()
        );
    }
}

#[test]
fn version_number_agrees() {
    for seed in 0..2000 {
        let bytes = sample(seed);
        assert_eq!(
            UuidValue::from_bytes(bytes).version_number(),
            Uuid::from_bytes(bytes).get_version_num()
        );
    }
}

#[test]
fn parse_agrees_on_texts_of_36_bytes() {
    let alphabet: Vec<char> = "0123456789abcdefABCDEF-gG {}".chars().collect();
    for seed in 0..4000u64 {
        let bytes = sample(seed);
        let mut text: Vec<char> =
            Uuid::from_bytes(bytes).hyphenated().to_string().chars().collect();
        if seed % 4 != 0 {
            let noise = sample(seed ^ 0xffff);
            let at = (noise[0] as usize) % 36;
            text[at] = alphabet[(noise[1] as usize) % alphabet.len()];
        }
        let text: String = text.into_iter().collect();
        let ours = UuidValue::parse(&text).ok().map(|v| v.bytes);
        let theirs = Uuid::parse_str(&text).ok().map(|u| u.into_bytes());
        assert_eq!(ours, theirs, "on {:?}", text);
    }
}

#[test]
fn with_version_agrees_with_the_builders() {
    for seed in 0..2000 {
        let bytes = sample(seed);
        assert_eq!(
            UuidValue::with_version(bytes, Version::NameMd5).bytes,
            Builder::from_md5_bytes(bytes).into_uuid().into_bytes()
        );
        assert_eq!(
            UuidValue::with_version(bytes, Version::Random).bytes,
            Builder::from_random_bytes(bytes).into_uuid().into_bytes()
        );
        assert_eq!(
            UuidValue::with_version(bytes, Version::NameSha1).bytes,
            Builder::from_sha1_bytes(bytes).into_uuid().into_bytes()
        );
    }
}

#[test]
fn name_based_agree() {
    for seed in 0..500 {
        let namespace = sample(seed);
        let name = sample(seed + 10_000);
        let name = &name[..(seed as usize % 17)];
        assert_eq!(
            generate_v3_in(&UuidValue::from_bytes(namespace), name).bytes,
            Uuid::new_v3(&Uuid::from_bytes(namespace), name).into_bytes()
        );
        assert_eq!(
            generate_v5_in(&UuidValue::from_bytes(namespace), name).bytes,
            Uuid::new_v5(&Uuid::from_bytes(namespace), name).into_bytes()
        );
    }
}

#[test]
fn time_based_agrees() {
    for seed in 0..2000u64 {
        let noise = sample(seed);
        let secs = u64::from_le_bytes([
            noise[0], noise[1], noise[2], noise[3], noise[4], 0, 0, 0,
        ]);
        let nanos = u32::from_le_bytes([noise[5], noise[6], noise[7], noise[8]]) % 1_000_000_000;
        let clock_seq = u16::from_le_bytes([noise[9], noise[10]]);
        let node = NodeId::from_bytes([
            noise[11], noise[12], noise[13], noise[14], noise[15], noise[0],
        ]);
        let ours = generate_v1_at(&UnixTime { secs, nanos }, clock_seq, &node);
        let context = ContextV1::new(clock_seq);
        let theirs = Uuid::new_v1(Timestamp::from_unix(&context, secs, nanos), &node.octets());
        assert_eq!(ours.bytes, theirs.into_bytes());
        assert_eq!(theirs.get_node_id(), Some(node.octets()));
    }
}
