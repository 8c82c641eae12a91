use compbench::codec::{
    gzip_compression, gzip_decompression, gzip_round_trip, lz4_decompression,
    lz4_flex_compression, lz4_flex_decompression, lz4_flex_round_trip, lz4_round_trip,
    lz4_rs_compression, CodecError,
};
use compbench::data::{generate_binary_data, random_data, repeating_data};
use std::io::Write;

#[test]
fn gzip_round_trips_all_levels() {
    let data = random_data(10_000);
    for level in [1u32, 6, 9] {
        assert_eq!(gzip_round_trip(&data, level), data);
    }
}

#[test]
fn lz4_round_trips_all_levels() {
    let data = random_data(10_000);
    for level in [0u32, 4, 16] {
        assert_eq!(lz4_round_trip(&data, level), data);
    }
}

#[test]
fn lz4_flex_round_trips() {
    let data = random_data(10_000);
    assert_eq!(lz4_flex_round_trip(&data), data);
}

#[test]
fn round_trips_empty_input() {
    let empty: Vec<u8> = Vec::new();
    assert_eq!(gzip_round_trip(&empty, 9), empty);
    assert_eq!(lz4_round_trip(&empty, 16), empty);
    assert_eq!(lz4_flex_round_trip(&empty), empty);
}

#[test]
fn round_trips_ten_megabytes() {
    let data = repeating_data(1024 * 1024 * 10);
    assert_eq!(gzip_round_trip(&data, 9), data);
    assert_eq!(lz4_round_trip(&data, 16), data);
    assert_eq!(lz4_flex_round_trip(&data), data);
}

#[test]
fn compressed_differs_from_input() {
    let data = repeating_data(10_000);
    let gz = gzip_compression(&data, 9);
    assert_ne!(gz, data);
    assert!(gz.len() < data.len());
    let lz = lz4_rs_compression(&data, 16);
    assert_ne!(lz, data);
    assert!(lz.len() < data.len());
    let fl = lz4_flex_compression(&data);
    assert_ne!(fl, data);
    assert!(fl.len() < data.len());
}

#[test]
fn decompression_recovers_changed_bytes() {
    let data = random_data(1000);
    let gz = gzip_compression(&data, 6);
    assert_ne!(gz, data);
    assert_eq!(gzip_decompression(&gz), Ok(data.clone()));
    let fl = lz4_flex_compression(&data);
    assert_eq!(lz4_flex_decompression(&fl), Ok(data));
}

#[test]
fn gzip_matches_flate2_directly() {
    let data = random_data(2000);
    let mut encoder =
        flate2::write::GzEncoder::new(Vec::new(), flate2::Compression::new(6));
    encoder.write_all(&data).unwrap();
    let direct = encoder.finish().unwrap();
    assert_eq!(gzip_compression(&data, 6), direct);
}

#[test]
fn lz4_flex_matches_crate_directly() {
    let data = random_data(2000);
    assert_eq!(lz4_flex_compression(&data), lz4_flex::compress_prepend_size(&data));
}

#[test]
fn garbage_input_is_invalid_data() {
    let bad_magic: Vec<u8> = vec![0; 20];
    assert_eq!(gzip_decompression(&bad_magic), Err(CodecError::InvalidData));
    assert_eq!(lz4_decompression(&bad_magic), Err(CodecError::InvalidData));
    let truncated: Vec<u8> = vec![1, 2, 3];
    assert_eq!(lz4_flex_decompression(&truncated), Err(CodecError::InvalidData));
}

#[test]
fn pattern_compresses_far_better_than_random() {
    let len = 1024 * 1024 * 10;
    let pattern = repeating_data(len);
    let compressed_pattern = gzip_compression(&pattern, 9);
    // factor > 10: original / compressed > 10
    assert!(compressed_pattern.len() * 10 < len);

    // The < 1.1x half needs bytes drawn uniformly from the whole byte range:
    // the alphanumeric Random shape carries under 6 bits of entropy per byte
    // and compresses to roughly 1.33x.
    let random = generate_binary_data(len);
    let compressed_random = gzip_compression(&random, 9);
    // factor < 1.1: original * 10 < compressed * 11
    assert!(len * 10 < compressed_random.len() * 11);
}

#[test]
fn compressed_framing_bytes() {
    let data = random_data(1000);

    let gz = gzip_compression(&data, 6);
    assert!(gz.len() >= 18);
    assert_eq!(&gz[0..2], &[0x1f, 0x8b]);
    assert_eq!(&gz[gz.len() - 4..], &1000u32.to_le_bytes());

    let lz = lz4_rs_compression(&data, 4);
    assert!(lz.len() >= 4);
    assert_eq!(&lz[0..4], &0x184D2204u32.to_le_bytes());

    let fl = lz4_flex_compression(&data);
    assert!(fl.len() >= 4);
    assert_eq!(&fl[0..4], &1000u32.to_le_bytes());
}

#[test]
fn empty_input_framing_bytes() {
    let empty: Vec<u8> = Vec::new();
    let gz = gzip_compression(&empty, 9);
    assert!(gz.len() >= 18);
    assert_eq!(&gz[gz.len() - 4..], &0u32.to_le_bytes());
    let fl = lz4_flex_compression(&empty);
    assert_eq!(&fl[0..4], &0u32.to_le_bytes());
}
