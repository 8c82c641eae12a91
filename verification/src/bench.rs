//! The benchmark driver: one trial generates a buffer of a given shape,
//! times a codec over it, and yields the byte lengths and the compression
//! factor; the driver accumulates trials per codec / level / shape
//! combination and renders the report lines.
use crate::codec::{gzip_bytes, gzip_compression, lz4_block_bytes, lz4_flex_compression,
    lz4_frame_bytes, lz4_rs_compression};
use crate::data::{generate_test_data, shape_allows, TestData};
use crate::report::{stats_line, stats_line_str};
use crate::stats::{compression_factor, saturate_u64, saturating_cast, CompressionStats};
use vstd::prelude::*;

verus! {

/// The byte length of the buffer each trial compresses: ten megabytes.
pub const DATA_SIZE: usize = 1024 * 1024 * 10;

/// How many trials each codec / level / shape combination runs.
pub const NUM_TRIALS: u64 = 1;

#[verifier::external_type_specification]
#[verifier::external_body]
pub struct ExInstant(std::time::Instant);

/// Relies on std's `Instant::now`: a reading of the monotonic clock; nothing
/// can be promised of its value.
pub assume_specification[ std::time::Instant::now ]() -> std::time::Instant;

/// Relies on std's `Instant::elapsed`: the time since the reading; nothing
/// can be promised of its value.
pub assume_specification[ std::time::Instant::elapsed ](
    this: &std::time::Instant,
) -> core::time::Duration;

/// Relies on std's `Duration::as_nanos`: the duration in whole nanoseconds;
/// nothing can be promised of its value.
pub assume_specification[ core::time::Duration::as_nanos ](this: &core::time::Duration) -> u128;

/// What one generate-compress-measure cycle yields.
pub struct TrialResult {
    pub original_len: u64,
    pub compressed_len: u64,
    pub elapsed_nanos: u128,
    pub factor_centi: u64,
}

/// A trial result is consistent when the compressed buffer is non-empty and
/// the recorded factor is the original length over the compressed length, in
/// hundredths, rounded down and saturated.
pub open spec fn trial_consistent(t: TrialResult) -> bool {
    &&& t.compressed_len > 0
    &&& t.factor_centi == saturate_u64(t.original_len * 100 / t.compressed_len as int)
}

fn trial_result(original_len: usize, compressed_len: usize, elapsed_nanos: u128) -> (t:
    TrialResult)
    requires
        compressed_len > 0,
    ensures
        t.original_len == original_len,
        t.compressed_len == compressed_len,
        t.elapsed_nanos == elapsed_nanos,
        trial_consistent(t),
{
    let num = original_len as u64;
    let den = compressed_len as u64;
    let factor_centi = match compression_factor(num, den) {
        Some(f) => f.centi(),
        None => vstd::pervasive::unreached(),
    };
    TrialResult { original_len: num, compressed_len: den, elapsed_nanos, factor_centi }
}

/// One gzip trial: the compressed length is that of the gzip stream for the
/// data, and the factor is consistent with the two lengths.
pub fn gzip_trial(data: &Vec<u8>, level: u32) -> (t: TrialResult)
    requires
        level <= 9,
    ensures
        t.original_len == data@.len(),
        t.compressed_len == gzip_bytes(data@, level).len(),
        trial_consistent(t),
{
    let start = std::time::Instant::now();
    let compressed = gzip_compression(data, level);
    let elapsed_nanos = start.elapsed().as_nanos();
    trial_result(data.len(), compressed.len(), elapsed_nanos)
}

/// One LZ4 frame trial: the compressed length is that of the LZ4 frame for
/// the data, and the factor is consistent with the two lengths.
pub fn lz4_rs_trial(data: &Vec<u8>, level: u32) -> (t: TrialResult)
    ensures
        t.original_len == data@.len(),
        t.compressed_len == lz4_frame_bytes(data@, level).len(),
        trial_consistent(t),
{
    let start = std::time::Instant::now();
    let compressed = lz4_rs_compression(data, level);
    let elapsed_nanos = start.elapsed().as_nanos();
    trial_result(data.len(), compressed.len(), elapsed_nanos)
}

/// One LZ4 block trial: the compressed length is that of the length-prefixed
/// LZ4 block for the data, and the factor is consistent with the two lengths.
pub fn lz4_flex_trial(data: &Vec<u8>) -> (t: TrialResult)
    ensures
        t.original_len == data@.len(),
        t.compressed_len == lz4_block_bytes(data@).len(),
        trial_consistent(t),
{
    let start = std::time::Instant::now();
    let compressed = lz4_flex_compression(data);
    let elapsed_nanos = start.elapsed().as_nanos();
    trial_result(data.len(), compressed.len(), elapsed_nanos)
}

/// Which codec and level a combination runs.
pub enum CodecChoice {
    Gzip(u32),
    Lz4Rs(u32),
    Lz4Flex,
}

/// Whether the level of the choice is one its codec accepts.
pub open spec fn choice_ok(c: CodecChoice) -> bool {
    match c {
        CodecChoice::Gzip(level) => level <= 9,
        CodecChoice::Lz4Rs(_) => true,
        CodecChoice::Lz4Flex => true,
    }
}

/// The compressed bytes the chosen codec produces for `d`.
pub open spec fn spec_compressed_bytes(choice: CodecChoice, d: Seq<u8>) -> Seq<u8> {
    match choice {
        CodecChoice::Gzip(level) => gzip_bytes(d, level),
        CodecChoice::Lz4Rs(level) => lz4_frame_bytes(d, level),
        CodecChoice::Lz4Flex => lz4_block_bytes(d),
    }
}

/// A trial of one combination: internally consistent, over an original of
/// exactly `len` bytes allowed by the shape, whose compressed length is that
/// of the chosen codec's output for some such buffer.
pub open spec fn trial_matches(t: TrialResult, shape: TestData, len: nat, choice: CodecChoice) -> bool {
    &&& trial_consistent(t)
    &&& t.original_len == len
    &&& exists|d: Seq<u8>|
        {
            &&& d.len() == len
            &&& forall|i: int| 0 <= i < d.len() ==> shape_allows(shape, #[trigger] d[i])
            &&& t.compressed_len == #[trigger] spec_compressed_bytes(choice, d).len()
        }
}

/// Empty statistics: every sum zero, no trials recorded.
pub open spec fn empty_stats() -> CompressionStats {
    CompressionStats { factor_centi_sum: 0, time_nanos_sum: 0, size_sum: 0, trials: 0 }
}

/// The statistics after recording one more trial: each sum grows by the
/// trial's value, saturating at the top of its type.
pub open spec fn stats_after(s: CompressionStats, t: TrialResult) -> CompressionStats {
    CompressionStats {
        factor_centi_sum: crate::stats::saturate_u64(s.factor_centi_sum + t.factor_centi),
        time_nanos_sum: crate::stats::saturate_u128(s.time_nanos_sum + t.elapsed_nanos),
        size_sum: crate::stats::saturate_u64(s.size_sum + t.compressed_len),
        trials: (s.trials + 1) as u64,
    }
}

/// The statistics that recording the trials of `ts` in order accumulates.
pub open spec fn stats_of(ts: Seq<TrialResult>) -> CompressionStats
    decreases ts.len(),
{
    if ts.len() == 0 {
        empty_stats()
    } else {
        stats_after(stats_of(ts.drop_last()), ts.last())
    }
}

/// Runs `trials` generate-compress-measure cycles of one codec / level /
/// shape combination, each over a fresh buffer of `len` bytes: the result is
/// the saturating accumulation, in order, of `trials` results that each
/// match the shape and the codec, and its size sum is positive when any
/// trial ran.
pub fn run_trials(shape: &TestData, len: usize, choice: &CodecChoice, trials: u64) -> (stats:
    CompressionStats)
    requires
        choice_ok(*choice),
    ensures
        stats.trials == trials,
        trials > 0 ==> stats.size_sum > 0,
        exists|ts: Seq<TrialResult>|
            {
                &&& ts.len() == trials
                &&& forall|j: int|
                    0 <= j < ts.len() ==> trial_matches(#[trigger] ts[j], *shape, len as nat, *choice)
                &&& stats == #[trigger] stats_of(ts)
            },
{
    let mut stats = CompressionStats::new();
    let ghost mut ts: Seq<TrialResult> = Seq::empty();
    let mut i: u64 = 0;
    while i < trials
        invariant
            i <= trials,
            stats.trials == i,
            choice_ok(*choice),
            ts.len() == i,
            forall|j: int|
                0 <= j < ts.len() ==> trial_matches(#[trigger] ts[j], *shape, len as nat, *choice),
            stats == stats_of(ts),
            i > 0 ==> stats.size_sum > 0,
        decreases trials - i,
    {
        let data = generate_test_data(shape, len);
        let t = match choice {
            CodecChoice::Gzip(level) => gzip_trial(&data, *level),
            CodecChoice::Lz4Rs(level) => lz4_rs_trial(&data, *level),
            CodecChoice::Lz4Flex => lz4_flex_trial(&data),
        };
        proof {
            assert(t.compressed_len == spec_compressed_bytes(*choice, data@).len());
            assert(trial_matches(t, *shape, len as nat, *choice));
        }
        let ghost stats0 = stats;
        stats.record(t.factor_centi, t.elapsed_nanos, t.compressed_len);
        proof {
            let ts0 = ts;
            ts = ts.push(t);
            assert(ts.drop_last() =~= ts0);
            assert(stats == stats_after(stats_of(ts0), t));
        }
        i = i + 1;
    }
    stats
}

/// The statistics line for one combination's accumulated trials: the mean
/// factor in hundredths, the mean time in milliseconds (three fraction
/// digits of a second), and the mean size in hundredths of a megabyte.
pub fn stats_report_line(stats: &CompressionStats) -> (s: String)
    requires
        stats.trials > 0,
    ensures
        s@ == stats_line_str(
            (stats.factor_centi_sum / stats.trials) as nat,
            saturate_u64((stats.time_nanos_sum as int / stats.trials as int) / 1000000) as nat,
            saturate_u64(stats.size_sum / stats.trials * 100 / 1048576) as nat,
        ),
{
    let factor_centi = stats.mean_factor_centi();
    let time_milli = saturating_cast(stats.mean_time_nanos() / 1000000);
    let size_wide: u128 = (stats.mean_size() as u128) * 100 / 1048576;
    let size_mb_centi = saturating_cast(size_wide);
    stats_line(factor_centi, time_milli, size_mb_centi)
}

/// Whether `s` is the rendering of some accumulated means: a factor in
/// hundredths, a time in milliseconds, and a size in hundredths of a
/// megabyte.
#[verifier::opaque]
pub open spec fn is_stats_line(s: Seq<char>) -> bool {
    exists|f: nat, t: nat, z: nat| s == stats_line_str(f, t, z)
}

/// The fifteen lines of one shape's report block: the header, then a title
/// line and a statistics line for each of three gzip levels, LZ4-flex, and
/// three LZ4 levels, every statistics line a rendering of some accumulated
/// means.
pub open spec fn report_block_wf(block: Seq<String>, shape_name: Seq<char>) -> bool {
    &&& block.len() == 15
    &&& block[0]@ == "=== "@ + shape_name + " Data ==="@
    &&& block[1]@ == "--- Gzip "@ + "Fast"@ + " ---"@
    &&& block[3]@ == "--- Gzip "@ + "Default"@ + " ---"@
    &&& block[5]@ == "--- Gzip "@ + "Best"@ + " ---"@
    &&& block[7]@ == "--- LZ4-Flex Compression ("@ + shape_name + " data) ---"@
    &&& block[9]@ == "--- LZ4-RS Fast Compression ("@ + shape_name + " data) ---"@
    &&& block[11]@ == "--- LZ4-RS Default Compression ("@ + shape_name + " data) ---"@
    &&& block[13]@ == "--- LZ4-RS Best Compression ("@ + shape_name + " data) ---"@
    &&& is_stats_line(block[2]@)
    &&& is_stats_line(block[4]@)
    &&& is_stats_line(block[6]@)
    &&& is_stats_line(block[8]@)
    &&& is_stats_line(block[10]@)
    &&& is_stats_line(block[12]@)
    &&& is_stats_line(block[14]@)
}

fn combination_pair(
    shape: &TestData,
    len: usize,
    choice: &CodecChoice,
    trials: u64,
    title: String,
) -> (pair: (String, String))
    requires
        choice_ok(*choice),
        trials > 0,
    ensures
        pair.0 == title,
        is_stats_line(pair.1@),
{
    let stats = run_trials(shape, len, choice, trials);
    let line = stats_report_line(&stats);
    proof {
        reveal(is_stats_line);
        assert(is_stats_line(line@));
    }
    (title, line)
}

fn titled(prefix: &str, name: &str, suffix: &str) -> (s: String)
    ensures
        s@ == prefix@ + name@ + suffix@,
{
    let mut s = String::new();
    s.append(prefix);
    s.append(name);
    s.append(suffix);
    s
}

#[verifier::rlimit(60)]
fn shape_lines(shape: &TestData, shape_name: &str, len: usize, trials: u64) -> (block: Vec<String>)
    requires
        trials > 0,
    ensures
        report_block_wf(block@, shape_name@),
{
    let mut block: Vec<String> = Vec::new();
    let header = titled("=== ", shape_name, " Data ===");
    block.push(header);
    let (t1, s1) = combination_pair(shape, len, &CodecChoice::Gzip(1), trials, titled("--- Gzip ", "Fast", " ---"));
    let ghost vt1 = t1@;
    let ghost vs1 = s1@;
    block.push(t1);
    block.push(s1);
    proof {
        assert(block@[1]@ == vt1 && block@[2]@ == vs1);
    }
    let (t2, s2) = combination_pair(shape, len, &CodecChoice::Gzip(6), trials, titled("--- Gzip ", "Default", " ---"));
    let ghost vt2 = t2@;
    let ghost vs2 = s2@;
    block.push(t2);
    block.push(s2);
    proof {
        assert(block@[3]@ == vt2 && block@[4]@ == vs2);
    }
    let (t3, s3) = combination_pair(shape, len, &CodecChoice::Gzip(9), trials, titled("--- Gzip ", "Best", " ---"));
    let ghost vt3 = t3@;
    let ghost vs3 = s3@;
    block.push(t3);
    block.push(s3);
    proof {
        assert(block@[5]@ == vt3 && block@[6]@ == vs3);
    }
    let (t4, s4) = combination_pair(
        shape,
        len,
        &CodecChoice::Lz4Flex,
        trials,
        titled("--- LZ4-Flex Compression (", shape_name, " data) ---"),
    );
    let ghost vt4 = t4@;
    let ghost vs4 = s4@;
    block.push(t4);
    block.push(s4);
    proof {
        assert(block@[7]@ == vt4 && block@[8]@ == vs4);
    }
    let (t5, s5) = combination_pair(shape, len, &CodecChoice::Lz4Rs(0), trials, titled("--- LZ4-RS Fast Compression (", shape_name, " data) ---"));
    let ghost vt5 = t5@;
    let ghost vs5 = s5@;
    block.push(t5);
    block.push(s5);
    proof {
        assert(block@[9]@ == vt5 && block@[10]@ == vs5);
    }
    let (t6, s6) = combination_pair(shape, len, &CodecChoice::Lz4Rs(4), trials, titled("--- LZ4-RS Default Compression (", shape_name, " data) ---"));
    let ghost vt6 = t6@;
    let ghost vs6 = s6@;
    block.push(t6);
    block.push(s6);
    proof {
        assert(block@[11]@ == vt6 && block@[12]@ == vs6);
    }
    let (t7, s7) = combination_pair(shape, len, &CodecChoice::Lz4Rs(16), trials, titled("--- LZ4-RS Best Compression (", shape_name, " data) ---"));
    let ghost vt7 = t7@;
    let ghost vs7 = s7@;
    block.push(t7);
    block.push(s7);
    proof {
        assert(block@[13]@ == vt7 && block@[14]@ == vs7);
        assert(block@[0]@ == "=== "@ + shape_name@ + " Data ==="@);
        assert(report_block_wf(block@, shape_name@));
    }
    block
}

/// The whole report over the three data shapes, for buffers of `len` bytes
/// and `trials` trials per combination: three well-formed fifteen-line shape
/// blocks, in the order random, repeating, mixed.
pub fn run_report_with(len: usize, trials: u64) -> (lines: Vec<String>)
    requires
        trials > 0,
    ensures
        lines@.len() == 45,
        report_block_wf(lines@.subrange(0, 15), "Random"@),
        report_block_wf(lines@.subrange(15, 30), "Repeating"@),
        report_block_wf(lines@.subrange(30, 45), "Mixed"@),
{
    let mut lines = shape_lines(&TestData::Random, "Random", len, trials);
    let mut block2 = shape_lines(&TestData::Repeating, "Repeating", len, trials);
    let mut block3 = shape_lines(&TestData::Mixed, "Mixed", len, trials);
    let ghost g1 = lines@;
    let ghost g2 = block2@;
    let ghost g3 = block3@;
    lines.append(&mut block2);
    lines.append(&mut block3);
    proof {
        assert(lines@.subrange(0, 15) =~= g1);
        assert(lines@.subrange(15, 30) =~= g2);
        assert(lines@.subrange(30, 45) =~= g3);
    }
    lines
}

/// The whole report at the configured data size and trial count.
pub fn run_report() -> (lines: Vec<String>)
    ensures
        lines@.len() == 45,
        report_block_wf(lines@.subrange(0, 15), "Random"@),
        report_block_wf(lines@.subrange(15, 30), "Repeating"@),
        report_block_wf(lines@.subrange(30, 45), "Mixed"@),
{
    run_report_with(DATA_SIZE, NUM_TRIALS)
}

} // verus!
