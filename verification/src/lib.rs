//! Benchmarking library for byte-oriented compression codecs: synthetic data
//! generators, gzip / LZ4 / LZ4-flex codec wrappers with round-trip
//! guarantees, fixed-point compression statistics, and report formatting.
pub mod bench;
pub mod codec;
pub mod data;
pub mod report;
pub mod stats;
