use compbench::bench::{gzip_trial, run_report_with, run_trials, CodecChoice};
use compbench::data::{random_data, TestData};
use compbench::report::{format_fixed2, format_fixed3, stats_line, u64_to_dec};
use compbench::stats::{compression_factor, CompressionStats};

#[test]
fn factor_exact_ratio() {
    let f = compression_factor(1000, 250).unwrap();
    assert_eq!(f.num, 1000);
    assert_eq!(f.den, 250);
    assert_eq!(f.centi(), 400);
}

#[test]
fn factor_rounds_down() {
    let f = compression_factor(10, 3).unwrap();
    assert_eq!(f.centi(), 333);
}

#[test]
fn factor_none_for_empty_compressed() {
    assert!(compression_factor(1000, 0).is_none());
}

#[test]
fn factor_saturates() {
    let f = compression_factor(u64::MAX, 1).unwrap();
    assert_eq!(f.centi(), u64::MAX);
}

#[test]
fn stats_accumulate_and_average() {
    let mut stats = CompressionStats::new();
    stats.record(400, 1_500_000_000, 2_000_000);
    stats.record(200, 500_000_000, 1_000_000);
    assert_eq!(stats.trials, 2);
    assert_eq!(stats.factor_centi_sum, 600);
    assert_eq!(stats.time_nanos_sum, 2_000_000_000);
    assert_eq!(stats.size_sum, 3_000_000);
    assert_eq!(stats.mean_factor_centi(), 300);
    assert_eq!(stats.mean_time_nanos(), 1_000_000_000);
    assert_eq!(stats.mean_size(), 1_500_000);
}

#[test]
fn stats_sums_saturate() {
    let mut stats = CompressionStats::new();
    stats.record(u64::MAX, u128::MAX, u64::MAX);
    stats.record(1, 1, 1);
    assert_eq!(stats.factor_centi_sum, u64::MAX);
    assert_eq!(stats.time_nanos_sum, u128::MAX);
    assert_eq!(stats.size_sum, u64::MAX);
    assert_eq!(stats.trials, 2);
}

#[test]
fn stats_default_is_empty() {
    let stats: CompressionStats = Default::default();
    assert_eq!(stats.trials, 0);
    assert_eq!(stats.factor_centi_sum, 0);
    assert_eq!(stats.time_nanos_sum, 0);
    assert_eq!(stats.size_sum, 0);
}

#[test]
fn decimal_rendering_exact() {
    assert_eq!(u64_to_dec(0), "0");
    assert_eq!(u64_to_dec(7), "7");
    assert_eq!(u64_to_dec(10), "10");
    assert_eq!(u64_to_dec(1234), "1234");
    assert_eq!(u64_to_dec(u64::MAX), "18446744073709551615");
}

#[test]
fn fixed_point_rendering_exact() {
    assert_eq!(format_fixed2(1234), "12.34");
    assert_eq!(format_fixed2(5), "0.05");
    assert_eq!(format_fixed2(100), "1.00");
    assert_eq!(format_fixed3(12345), "12.345");
    assert_eq!(format_fixed3(42), "0.042");
    assert_eq!(format_fixed3(0), "0.000");
}

#[test]
fn stats_line_exact() {
    assert_eq!(
        stats_line(1234, 56, 789),
        "Compression Factor: 12.34x | Time: 0.056s | Avg Size: 7.89MB"
    );
}

#[test]
fn trial_factor_consistent_with_lengths() {
    let data = random_data(5000);
    let t = gzip_trial(&data, 6);
    assert_eq!(t.original_len, 5000);
    assert!(t.compressed_len > 0);
    assert_eq!(t.factor_centi, t.original_len * 100 / t.compressed_len);
}

#[test]
fn run_trials_counts_trials() {
    let stats = run_trials(&TestData::Mixed, 500, &CodecChoice::Lz4Flex, 3);
    assert_eq!(stats.trials, 3);
    assert!(stats.size_sum > 0);
}

#[test]
fn report_has_expected_shape() {
    let lines = run_report_with(2000, 1);
    assert_eq!(lines.len(), 45);
    assert_eq!(lines[0], "=== Random Data ===");
    assert_eq!(lines[1], "--- Gzip Fast ---");
    assert_eq!(lines[15], "=== Repeating Data ===");
    assert_eq!(lines[30], "=== Mixed Data ===");
    assert_eq!(lines[22], "--- LZ4-Flex Compression (Repeating data) ---");
    assert!(lines[2].starts_with("Compression Factor: "));
    assert!(lines[2].contains("x | Time: "));
    assert!(lines[2].ends_with("MB"));
}
