//! Synthetic test data: byte buffers of an exact requested length in one of
//! three shapes (uniformly random alphanumeric bytes, a repeated fixed
//! pattern, or a random interleaving of the two).
use rand::Rng;
use vstd::prelude::*;

verus! {

/// The three shapes of synthetic test data.
pub enum TestData {
    Random,
    Repeating,
    Mixed,
}

/// The fixed pattern used by the repeating and mixed shapes: the bytes of
/// "HelloWorld".
pub open spec fn pattern_spec() -> Seq<u8> {
    seq![72u8, 101u8, 108u8, 108u8, 111u8, 87u8, 111u8, 114u8, 108u8, 100u8]
}

/// Whether `b` is one of the 62 ASCII alphanumeric bytes.
pub open spec fn is_alphanumeric_byte(b: u8) -> bool {
    (48 <= b && b <= 57) || (65 <= b && b <= 90) || (97 <= b && b <= 122)
}

/// A token of the mixed shape: the whole pattern, or one alphanumeric byte.
pub open spec fn mixed_token_ok(t: Seq<u8>) -> bool {
    t == pattern_spec() || (t.len() == 1 && is_alphanumeric_byte(t[0]))
}

/// The mixed shape's structure: the buffer is a concatenation of tokens,
/// each a whole pattern block or a single alphanumeric byte, cut to the
/// buffer's length within the final token.
pub open spec fn is_mixed_shape(d: Seq<u8>) -> bool {
    exists|tokens: Seq<Seq<u8>>|
        {
            &&& forall|i: int| 0 <= i < tokens.len() ==> mixed_token_ok(#[trigger] tokens[i])
            &&& tokens.flatten().len() >= d.len()
            &&& tokens.flatten().len() < d.len() + 10
            &&& d == tokens.flatten().subrange(0, d.len() as int)
        }
}

/// Which bytes a buffer of the given shape may contain.
pub open spec fn shape_allows(shape: TestData, b: u8) -> bool {
    match shape {
        TestData::Random => is_alphanumeric_byte(b),
        TestData::Repeating => pattern_spec().contains(b),
        TestData::Mixed => is_alphanumeric_byte(b) || pattern_spec().contains(b),
    }
}

fn pattern_vec() -> (p: Vec<u8>)
    ensures
        p@ == pattern_spec(),
{
    let mut p: Vec<u8> = Vec::new();
    p.push(72);
    p.push(101);
    p.push(108);
    p.push(108);
    p.push(111);
    p.push(87);
    p.push(111);
    p.push(114);
    p.push(108);
    p.push(100);
    proof {
        assert(p@ =~= pattern_spec());
    }
    p
}

/// Relies on rand's `Alphanumeric` distribution: every sample is drawn from
/// the 62-byte charset `0-9A-Za-z`.
#[verifier::external_body]
fn random_alphanumeric_byte() -> (b: u8)
    ensures
        is_alphanumeric_byte(b),
{
    rand::thread_rng().sample(rand::distributions::Alphanumeric)
}

/// Relies on rand's `Rng::gen_ratio`: a random bool that is true with
/// probability `numerator / denominator`; nothing can be promised of the
/// outcome of any one call.
#[verifier::external_body]
fn random_ratio(numerator: u32, denominator: u32) -> bool
    requires
        0 < denominator,
        numerator <= denominator,
{
    rand::thread_rng().gen_ratio(numerator, denominator)
}

/// Relies on rand's `Fill` for byte slices: fills the whole buffer in place;
/// nothing can be promised of the values.
#[verifier::external_body]
fn fill_random_bytes(buf: &mut Vec<u8>)
    ensures
        final(buf)@.len() == old(buf)@.len(),
{
    rand::thread_rng().fill(&mut buf[..]);
}

/// A buffer of exactly `size` uniformly random bytes (the whole byte range,
/// not only alphanumeric ones).
pub fn generate_binary_data(size: usize) -> (d: Vec<u8>)
    ensures
        d@.len() == size,
{
    let mut d: Vec<u8> = Vec::new();
    let mut i: usize = 0;
    while i < size
        invariant
            i <= size,
            d@.len() == i,
        decreases size - i,
    {
        d.push(0);
        i = i + 1;
    }
    fill_random_bytes(&mut d);
    d
}

/// A buffer of exactly `len` uniformly random alphanumeric bytes.
pub fn random_data(len: usize) -> (d: Vec<u8>)
    ensures
        d@.len() == len,
        forall|i: int| 0 <= i < len ==> is_alphanumeric_byte(d@[i]),
{
    let mut d: Vec<u8> = Vec::new();
    let mut i: usize = 0;
    while i < len
        invariant
            i <= len,
            d@.len() == i,
            forall|j: int| 0 <= j < i ==> is_alphanumeric_byte(d@[j]),
        decreases len - i,
    {
        d.push(random_alphanumeric_byte());
        i = i + 1;
    }
    d
}

/// A buffer of exactly `len` bytes: the pattern repeated and truncated, so
/// byte `i` is byte `i % 10` of the pattern.
pub fn repeating_data(len: usize) -> (d: Vec<u8>)
    ensures
        d@.len() == len,
        forall|i: int| 0 <= i < len ==> d@[i] == pattern_spec()[i % 10],
{
    let pat = pattern_vec();
    let mut d: Vec<u8> = Vec::new();
    let mut i: usize = 0;
    while i < len
        invariant
            i <= len,
            d@.len() == i,
            pat@ == pattern_spec(),
            forall|j: int| 0 <= j < i ==> d@[j] == pattern_spec()[j % 10],
        decreases len - i,
    {
        d.push(pat[i % 10]);
        i = i + 1;
    }
    d
}

/// A buffer of exactly `len` bytes: at each step, with probability 0.3 the
/// whole pattern is appended, otherwise one random alphanumeric byte, and
/// the result is truncated to the target length; so the buffer is a
/// concatenation of whole pattern blocks and single alphanumeric bytes,
/// only the final block cut.
pub fn mixed_data(len: usize) -> (d: Vec<u8>)
    ensures
        d@.len() == len,
        forall|i: int|
            0 <= i < len ==> is_alphanumeric_byte(d@[i]) || pattern_spec().contains(d@[i]),
        is_mixed_shape(d@),
{
    let pat = pattern_vec();
    let mut d: Vec<u8> = Vec::new();
    let ghost mut tokens: Seq<Seq<u8>> = Seq::empty();
    proof {
        assert(tokens.flatten() =~= Seq::<u8>::empty());
    }
    while d.len() < len
        invariant
            d@.len() <= len + 9,
            pat@ == pattern_spec(),
            forall|i: int| 0 <= i < tokens.len() ==> mixed_token_ok(#[trigger] tokens[i]),
            d@ == tokens.flatten(),
            forall|j: int|
                0 <= j < d@.len() ==> is_alphanumeric_byte(d@[j]) || pattern_spec().contains(
                    d@[j],
                ),
        decreases len + 9 - d@.len(),
    {
        if random_ratio(3, 10) {
            let ghost pre = d@;
            let mut k: usize = 0;
            while k < 10
                invariant
                    k <= 10,
                    pre.len() < len,
                    pat@ == pattern_spec(),
                    d@ == pre + pattern_spec().subrange(0, k as int),
                decreases 10 - k,
            {
                d.push(pat[k]);
                proof {
                    assert(d@ =~= pre + pattern_spec().subrange(0, k + 1));
                }
                k = k + 1;
            }
            proof {
                let t0 = tokens;
                tokens = tokens.push(pattern_spec());
                t0.lemma_flatten_push(pattern_spec());
                assert(pattern_spec().subrange(0, 10) =~= pattern_spec());
                assert(d@ =~= tokens.flatten());
                assert forall|j: int|
                    0 <= j < d@.len() implies is_alphanumeric_byte(d@[j])
                    || pattern_spec().contains(d@[j]) by {
                    if j >= pre.len() {
                        assert(d@[j] == pattern_spec()[j - pre.len()]);
                        assert(pattern_spec().contains(pattern_spec()[j - pre.len()]));
                    }
                }
            }
        } else {
            let b = random_alphanumeric_byte();
            d.push(b);
            proof {
                let t0 = tokens;
                tokens = tokens.push(seq![b]);
                t0.lemma_flatten_push(seq![b]);
                assert(d@ =~= tokens.flatten());
            }
        }
    }
    d.truncate(len);
    proof {
        assert(tokens.flatten().len() >= len);
        assert(tokens.flatten().len() < len + 10);
        assert(d@ == tokens.flatten().subrange(0, len as int));
        assert(is_mixed_shape(d@));
    }
    d
}

/// The generator: a buffer of exactly `len` bytes of the given shape, every
/// byte allowed by the shape, and for the repeating shape a prefix of the
/// infinite repetition of the pattern.
pub fn generate_test_data(shape: &TestData, len: usize) -> (d: Vec<u8>)
    ensures
        d@.len() == len,
        forall|i: int| 0 <= i < len ==> shape_allows(*shape, d@[i]),
        *shape is Repeating ==> forall|i: int| 0 <= i < len ==> d@[i] == pattern_spec()[i % 10],
        *shape is Mixed ==> is_mixed_shape(d@),
{
    match shape {
        TestData::Random => random_data(len),
        TestData::Repeating => {
            let d = repeating_data(len);
            proof {
                assert forall|i: int| 0 <= i < len implies shape_allows(*shape, d@[i]) by {
                    assert(d@[i] == pattern_spec()[i % 10]);
                    assert(pattern_spec().contains(pattern_spec()[i % 10]));
                }
            }
            d
        },
        TestData::Mixed => mixed_data(len),
    }
}

} // verus!
