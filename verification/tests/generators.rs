use compbench::data::{
    generate_binary_data, generate_test_data, mixed_data, random_data, repeating_data, TestData,
};

const PATTERN: &[u8] = b"HelloWorld";

fn is_alphanumeric(b: u8) -> bool {
    (b'0'..=b'9').contains(&b) || (b'A'..=b'Z').contains(&b) || (b'a'..=b'z').contains(&b)
}

#[test]
fn generator_lengths_exact() {
    for shape in [TestData::Random, TestData::Repeating, TestData::Mixed] {
        for len in [0usize, 1, 9, 10, 11, 1000] {
            let d = generate_test_data(&shape, len);
            assert_eq!(d.len(), len);
        }
    }
}

#[test]
fn repeating_is_pattern_prefix() {
    let d = repeating_data(25);
    let mut expected = Vec::new();
    while expected.len() < 25 {
        expected.extend_from_slice(PATTERN);
    }
    expected.truncate(25);
    assert_eq!(d, expected);
}

#[test]
fn repeating_large_is_pattern_prefix() {
    let len = 1024 * 1024;
    let d = generate_test_data(&TestData::Repeating, len);
    assert_eq!(d.len(), len);
    for (i, b) in d.iter().enumerate() {
        assert_eq!(*b, PATTERN[i % 10]);
    }
}

#[test]
fn random_bytes_are_alphanumeric() {
    let d = random_data(5000);
    assert_eq!(d.len(), 5000);
    assert!(d.iter().all(|&b| is_alphanumeric(b)));
}

#[test]
fn mixed_bytes_from_charset_or_pattern() {
    let d = mixed_data(5000);
    assert_eq!(d.len(), 5000);
    assert!(d.iter().all(|&b| is_alphanumeric(b) || PATTERN.contains(&b)));
}

#[test]
fn binary_data_length_exact() {
    for len in [0usize, 1, 4096] {
        let d = generate_binary_data(len);
        assert_eq!(d.len(), len);
    }
}
