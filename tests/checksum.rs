use crc64_nvme_checksum::command::{parse_args, Source, UsageError};
use crc64_nvme_checksum::compute::{
    calculate_crc_64_simd_from_string, calculate_crc_64_validate_from_string, checksum_bytes,
    checksum_segments,
};
use crc64_nvme_checksum::engines::ReferenceDigest;
use crc64_nvme_checksum::params::{CrcParams, SEGMENT_BYTES};
use crc64_nvme_checksum::stream::{Checksummer, Strategy, StreamConsumer};

const CHECK: u64 = 0xae8b14860a799888;

fn noise(len: usize, seed: u64) -> Vec<u8> {
    let mut state = seed;
    let mut out = Vec::with_capacity(len);
    for _ in 0..len {
        state = state
            .wrapping_mul(6364136223846793005)
            .wrapping_add(1442695040888963407);
        out.push((state >> 56) as u8);
    }
    out
}

fn split_at_sizes(bytes: &[u8], sizes: &[usize]) -> Vec<Vec<u8>> {
    let mut segments = Vec::new();
    let mut at = 0;
    let mut k = 0;
    while at < bytes.len() {
        let n = sizes[k % sizes.len()].min(bytes.len() - at);
        segments.push(bytes[at..at + n].to_vec());
        at += n;
        k += 1;
    }
    segments
}

fn args(words: &[&str]) -> Vec<String> {
    words.iter().map(|w| w.to_string()).collect()
}

#[test]
fn nvme_params_match_the_catalogue() {
    let p = CrcParams::nvme();
    assert_eq!(p.width, 64);
    assert_eq!(p.poly, 0xAD93D23594C93659);
    assert_eq!(p.init, u64::MAX);
    assert!(p.refin && p.refout);
    assert_eq!(p.xorout, u64::MAX);
    assert_eq!(p.check, CHECK);
    assert_eq!(p.residue, 0);
}

#[test]
fn self_test_vector_accelerated() {
    assert_eq!(calculate_crc_64_simd_from_string("123456789"), CHECK);
    assert_eq!(calculate_crc_64_simd_from_string("123456789"), CrcParams::nvme().check);
}

#[test]
fn self_test_vector_reference() {
    assert_eq!(calculate_crc_64_validate_from_string("123456789"), CHECK);
}

#[test]
fn empty_input_gives_zero() {
    assert_eq!(calculate_crc_64_simd_from_string(""), 0);
    assert_eq!(calculate_crc_64_validate_from_string(""), 0);
    assert_eq!(checksum_bytes(Strategy::Accelerated, &[]), 0);
    assert_eq!(checksum_bytes(Strategy::Reference, &[]), 0);
    assert_eq!(checksum_segments(Strategy::Reference, &Vec::new()), 0);
    assert_eq!(checksum_segments(Strategy::Accelerated, &vec![Vec::new(), Vec::new()]), 0);
}

#[test]
fn known_values() {
    for s in [Strategy::Accelerated, Strategy::Reference] {
        assert_eq!(checksum_bytes(s, b"hello world!"), 0xd9160d1fa8e418e3);
        assert_eq!(checksum_bytes(s, b"@"), 0x2808afa9582aa47);
        assert_eq!(checksum_bytes(s, &[0u8; 4096]), 0x6482d367eb22b64e);
        assert_eq!(checksum_bytes(s, &[255u8; 32]), 0xa0a06974c34d63c4);
    }
}

#[test]
fn strategies_agree_on_short_lengths() {
    for (k, len) in [0usize, 1, 63, 64, 65, 1000, 4097].iter().enumerate() {
        let bytes = noise(*len, k as u64 + 7);
        assert_eq!(
            checksum_bytes(Strategy::Accelerated, &bytes),
            checksum_bytes(Strategy::Reference, &bytes),
            "length {}",
            len
        );
    }
}

#[test]
fn strategies_agree_across_a_segment_boundary() {
    let bytes = noise(SEGMENT_BYTES + 1, 99);
    let mut results = Vec::new();
    for s in [Strategy::Accelerated, Strategy::Reference] {
        let mut consumer = StreamConsumer::new(s);
        let n = consumer.segment_capacity();
        assert_eq!(n, SEGMENT_BYTES);
        assert_eq!(consumer.on_read(&bytes[..n]), None);
        assert_eq!(consumer.on_read(&bytes[n..]), None);
        let sum = consumer.on_read(&[]).unwrap();
        assert_eq!(sum, checksum_bytes(s, &bytes));
        results.push(sum);
    }
    assert_eq!(results[0], results[1]);
}

#[test]
fn chunking_one_byte_segments() {
    let bytes = noise(777, 3);
    let segments = split_at_sizes(&bytes, &[1]);
    for s in [Strategy::Accelerated, Strategy::Reference] {
        assert_eq!(checksum_segments(s, &segments), checksum_bytes(s, &bytes));
    }
}

#[test]
fn chunking_prime_segments() {
    let bytes = noise(5000, 11);
    let segments = split_at_sizes(&bytes, &[2, 3, 5, 7, 11, 13, 17, 19, 23, 29, 31, 37, 41, 43, 47, 53, 59, 61, 67]);
    for s in [Strategy::Accelerated, Strategy::Reference] {
        assert_eq!(checksum_segments(s, &segments), checksum_bytes(s, &bytes));
    }
}

#[test]
fn chunking_with_empty_segments() {
    let segments = vec![b"1234".to_vec(), Vec::new(), b"5".to_vec(), Vec::new(), b"6789".to_vec()];
    assert_eq!(checksum_segments(Strategy::Accelerated, &segments), CHECK);
    assert_eq!(checksum_segments(Strategy::Reference, &segments), CHECK);
}

#[test]
fn digest_updates_compose() {
    for s in [Strategy::Accelerated, Strategy::Reference] {
        let mut c = Checksummer::new(s);
        c.update(b"123");
        c.update(b"");
        c.update(b"456789");
        assert_eq!(c.finalize(), CHECK);
    }
}

#[test]
fn repeated_computation_is_stable() {
    let bytes = noise(4096, 5);
    for s in [Strategy::Accelerated, Strategy::Reference] {
        let first = checksum_bytes(s, &bytes);
        let second = checksum_bytes(s, &bytes);
        assert_eq!(first, second);
        let mut flipped = bytes.clone();
        flipped[1234] ^= 0x10;
        assert_ne!(checksum_bytes(s, &flipped), first);
    }
}

#[test]
fn reference_digest_reads_its_parameters() {
    let xz = CrcParams {
        width: 64,
        poly: 0x42f0e1eba9ea3693,
        init: u64::MAX,
        refin: true,
        refout: true,
        xorout: u64::MAX,
        check: 0x995dc9bbdf1939fa,
        residue: 0,
    };
    let mut d = ReferenceDigest::new(&xz);
    d.update(b"123456789");
    assert_eq!(d.finalize(), 0x995dc9bbdf1939fa);
    let mut d = ReferenceDigest::new(&CrcParams::nvme());
    d.update(b"123456789");
    assert_eq!(d.finalize(), CHECK);
}

#[test]
fn consumer_phases() {
    let mut consumer = StreamConsumer::new(Strategy::Reference);
    assert_eq!(consumer.on_read(b"12345"), None);
    assert_eq!(consumer.on_read(b"6789"), None);
    assert_eq!(consumer.on_read(b""), Some(CHECK));
}

#[test]
fn consumer_empty_source() {
    let mut consumer = StreamConsumer::new(Strategy::Accelerated);
    assert_eq!(consumer.on_read(b""), Some(0));
}

#[test]
fn consumer_read_failure_discards() {
    let mut consumer = StreamConsumer::new(Strategy::Accelerated);
    assert_eq!(consumer.on_read(b"1234"), None);
    consumer.on_read_failure();
}

#[test]
fn string_mode_end_to_end() {
    let fast = parse_args(&args(&["crc", "--string", "123456789"])).unwrap();
    let slow = parse_args(&args(&["crc", "--string", "123456789", "--validate-slow"])).unwrap();
    assert_eq!(fast.strategy, Strategy::Accelerated);
    assert_eq!(slow.strategy, Strategy::Reference);
    let text = match &fast.source {
        Source::Text(t) => t.clone(),
        Source::File(_) => panic!("expected a text source"),
    };
    let a = checksum_bytes(fast.strategy, text.as_bytes());
    let b = checksum_bytes(slow.strategy, text.as_bytes());
    assert_eq!(a.to_string(), "12577168950296156296");
    assert_eq!(a, b);
}

#[test]
fn file_mode_request() {
    let r = parse_args(&args(&["crc", "--file", "/path/to/nonexistent"])).unwrap();
    assert!(matches!(r.source, Source::File(ref p) if p == "/path/to/nonexistent"));
    assert_eq!(r.strategy, Strategy::Accelerated);
}

#[test]
fn too_few_arguments_is_usage() {
    assert_eq!(parse_args(&args(&[])).unwrap_err(), UsageError::MissingArguments);
    assert_eq!(parse_args(&args(&["crc"])).unwrap_err(), UsageError::MissingArguments);
    assert_eq!(parse_args(&args(&["crc", "--string"])).unwrap_err(), UsageError::MissingArguments);
}

#[test]
fn unknown_mode_is_usage() {
    assert_eq!(parse_args(&args(&["crc", "--url", "x"])).unwrap_err(), UsageError::UnknownMode);
}

#[test]
fn validate_flag_only_in_fourth_place() {
    let r = parse_args(&args(&["crc", "--string", "x", "--other"])).unwrap();
    assert_eq!(r.strategy, Strategy::Accelerated);
    let r = parse_args(&args(&["crc", "--string", "x", "--validate-slow", "y"])).unwrap();
    assert_eq!(r.strategy, Strategy::Accelerated);
}
