//! Compression statistics in exact integer arithmetic: the compression
//! factor as a ratio of byte lengths, its fixed-point rendering in
//! hundredths, and running sums across trials with exact means.
use vstd::prelude::*;

verus! {

/// The compression factor `original_length / compressed_length` as an exact
/// ratio of byte lengths.
pub struct Factor {
    pub num: u64,
    pub den: u64,
}

impl Factor {
    /// A factor is finite when its denominator (the compressed length) is
    /// not zero.
    pub open spec fn finite(self) -> bool {
        self.den > 0
    }

    /// A factor is positive when its numerator (the original length) is not
    /// zero.
    pub open spec fn positive(self) -> bool {
        self.num > 0
    }

    /// The factor in hundredths, rounded down, saturated at `u64::MAX`.
    pub fn centi(&self) -> (c: u64)
        requires
            self.finite(),
        ensures
            c == saturate_u64(self.num * 100 / self.den as int),
    {
        let wide: u128 = (self.num as u128) * 100 / (self.den as u128);
        saturating_cast(wide)
    }
}

/// The compression factor of an original length against a compressed length:
/// none when the compressed length is zero.
pub open spec fn spec_factor(original_len: u64, compressed_len: u64) -> Option<Factor> {
    if compressed_len > 0 {
        Some(Factor { num: original_len, den: compressed_len })
    } else {
        None
    }
}

/// The compression factor of `original_len` bytes compressed to
/// `compressed_len` bytes; `None` exactly when the compressed length is zero.
pub fn compression_factor(original_len: u64, compressed_len: u64) -> (r: Option<Factor>)
    ensures
        r == spec_factor(original_len, compressed_len),
{
    if compressed_len > 0 {
        Some(Factor { num: original_len, den: compressed_len })
    } else {
        None
    }
}

/// Law: for a non-empty input and a non-empty compressed output the
/// compression factor exists, is finite, and is positive.
pub proof fn lemma_factor_finite_positive(original_len: u64, compressed_len: u64)
    requires
        original_len > 0,
        compressed_len > 0,
    ensures
        spec_factor(original_len, compressed_len) is Some,
        spec_factor(original_len, compressed_len)->Some_0.finite(),
        spec_factor(original_len, compressed_len)->Some_0.positive(),
{
}

/// `v` clipped to the range of `u64`.
pub open spec fn saturate_u64(v: int) -> u64 {
    if v > u64::MAX {
        u64::MAX
    } else {
        v as u64
    }
}

/// `v` narrowed to `u64`, saturating at `u64::MAX`.
pub fn saturating_cast(v: u128) -> (r: u64)
    ensures
        r == saturate_u64(v as int),
{
    if v > u64::MAX as u128 {
        u64::MAX
    } else {
        v as u64
    }
}

/// `v` clipped to the range of `u128`.
pub open spec fn saturate_u128(v: int) -> u128 {
    if v > u128::MAX {
        u128::MAX
    } else {
        v as u128
    }
}

fn saturating_add_u64(a: u64, b: u64) -> (r: u64)
    ensures
        r == saturate_u64(a + b),
{
    if b > u64::MAX - a {
        u64::MAX
    } else {
        a + b
    }
}

fn saturating_add_u128(a: u128, b: u128) -> (r: u128)
    ensures
        r == saturate_u128(a + b),
{
    if b > u128::MAX - a {
        u128::MAX
    } else {
        a + b
    }
}

/// Running sums of compression factor (in hundredths), elapsed time (in
/// nanoseconds), and compressed size (in bytes) across the trials of one
/// codec / level / data-shape combination.
pub struct CompressionStats {
    pub factor_centi_sum: u64,
    pub time_nanos_sum: u128,
    pub size_sum: u64,
    pub trials: u64,
}

impl Default for CompressionStats {
    /// Empty statistics: every sum zero, no trials recorded.
    fn default() -> (s: Self)
        ensures
            s.factor_centi_sum == 0,
            s.time_nanos_sum == 0,
            s.size_sum == 0,
            s.trials == 0,
    {
        CompressionStats { factor_centi_sum: 0, time_nanos_sum: 0, size_sum: 0, trials: 0 }
    }
}

impl CompressionStats {
    /// Empty statistics: every sum zero, no trials recorded.
    pub fn new() -> (s: Self)
        ensures
            s.factor_centi_sum == 0,
            s.time_nanos_sum == 0,
            s.size_sum == 0,
            s.trials == 0,
    {
        CompressionStats { factor_centi_sum: 0, time_nanos_sum: 0, size_sum: 0, trials: 0 }
    }

    /// Adds one trial's factor, elapsed time and compressed size to the
    /// sums, saturating each sum at the top of its type.
    pub fn record(&mut self, factor_centi: u64, elapsed_nanos: u128, compressed_size: u64)
        requires
            old(self).trials + 1 <= u64::MAX,
        ensures
            final(self).factor_centi_sum == saturate_u64(
                old(self).factor_centi_sum + factor_centi,
            ),
            final(self).time_nanos_sum == saturate_u128(old(self).time_nanos_sum + elapsed_nanos),
            final(self).size_sum == saturate_u64(old(self).size_sum + compressed_size),
            final(self).trials == old(self).trials + 1,
    {
        self.factor_centi_sum = saturating_add_u64(self.factor_centi_sum, factor_centi);
        self.time_nanos_sum = saturating_add_u128(self.time_nanos_sum, elapsed_nanos);
        self.size_sum = saturating_add_u64(self.size_sum, compressed_size);
        self.trials = self.trials + 1;
    }

    /// The mean factor across the recorded trials, in hundredths, rounded
    /// down.
    pub fn mean_factor_centi(&self) -> (m: u64)
        requires
            self.trials > 0,
        ensures
            m == self.factor_centi_sum / self.trials,
    {
        self.factor_centi_sum / self.trials
    }

    /// The mean elapsed time across the recorded trials, in nanoseconds,
    /// rounded down.
    pub fn mean_time_nanos(&self) -> (m: u128)
        requires
            self.trials > 0,
        ensures
            m == self.time_nanos_sum / self.trials as u128,
    {
        self.time_nanos_sum / (self.trials as u128)
    }

    /// The mean compressed size across the recorded trials, in bytes,
    /// rounded down.
    pub fn mean_size(&self) -> (m: u64)
        requires
            self.trials > 0,
        ensures
            m == self.size_sum / self.trials,
    {
        self.size_sum / self.trials
    }
}

} // verus!
