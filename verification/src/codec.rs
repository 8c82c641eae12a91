//! Codec wrappers: gzip (flate2), LZ4 frame (lz4), and LZ4 block with a
//! length prefix (lz4_flex). Each codec's compressed form is named as a
//! function of the input bytes (and level), and decompression is guaranteed
//! to invert compression.
use std::io::Read;
use std::io::Write;
use vstd::prelude::*;

verus! {

/// An error of this library: the bytes handed to a decompressor were not a
/// stream that the matching compressor produces.
#[derive(Clone, Copy, Debug, PartialEq, Eq, Structural)]
pub enum CodecError {
    InvalidData,
}

#[verifier::external_type_specification]
#[verifier::external_body]
pub struct ExIoError(std::io::Error);

#[verifier::external_type_specification]
#[verifier::external_body]
pub struct ExLz4FlexDecompressError(lz4_flex::block::DecompressError);

/// The gzip stream that compressing `data` at `level` produces. flate2's
/// `GzEncoder` writes a fixed header (mtime zero, fixed OS byte), so the
/// stream is a function of the input bytes and the level alone.
pub uninterp spec fn gzip_bytes(data: Seq<u8>, level: u32) -> Seq<u8>;

/// The LZ4 frame that compressing `data` at `level` produces.
pub uninterp spec fn lz4_frame_bytes(data: Seq<u8>, level: u32) -> Seq<u8>;

/// The length-prefixed LZ4 block that compressing `data` produces.
pub uninterp spec fn lz4_block_bytes(data: Seq<u8>) -> Seq<u8>;

/// The four bytes of `v` in little-endian order.
pub open spec fn u32_le_bytes(v: u32) -> Seq<u8> {
    seq![
        (v & 0xff) as u8,
        ((v >> 8) & 0xff) as u8,
        ((v >> 16) & 0xff) as u8,
        ((v >> 24) & 0xff) as u8,
    ]
}

/// Relies on flate2's `GzEncoder` writing to a `Vec`: deterministic output
/// for a given input and level, and writing to a `Vec` cannot fail. The
/// stream is one complete gzip member: a ten-byte header starting with the
/// magic bytes 0x1f 0x8b, the deflate body, and an eight-byte trailer whose
/// last four bytes are the input length modulo 2^32, little-endian.
#[verifier::external_body]
fn gzip_compress_raw(data: &Vec<u8>, level: u32) -> (r: Vec<u8>)
    requires
        level <= 9,
    ensures
        r@ == gzip_bytes(data@, level),
        r@.len() >= 18,
        r@[0] == 0x1f,
        r@[1] == 0x8b,
        r@.subrange(r@.len() - 4, r@.len() as int) == u32_le_bytes(
            (data@.len() % 0x100000000) as u32,
        ),
{
    let mut encoder = flate2::write::GzEncoder::new(Vec::new(), flate2::Compression::new(level));
    encoder.write_all(data).unwrap();
    encoder.finish().unwrap()
}

/// Relies on flate2's `GzDecoder`: reading a stream that `GzEncoder`
/// produced succeeds and yields exactly the bytes that were compressed.
#[verifier::external_body]
fn gzip_decompress_raw(data: &Vec<u8>) -> (r: Result<Vec<u8>, std::io::Error>)
    ensures
        forall|d: Seq<u8>, l: u32| data@ == gzip_bytes(d, l) ==> r is Ok && r->Ok_0@ == d,
{
    let mut decoder = flate2::read::GzDecoder::new(&data[..]);
    let mut decompressed = Vec::new();
    match decoder.read_to_end(&mut decompressed) {
        Ok(_) => Ok(decompressed),
        Err(e) => Err(e),
    }
}

/// Relies on the lz4 crate's `EncoderBuilder` writing to a `Vec`:
/// deterministic output for a given input and level (levels above 16 count
/// as 16), and writing to a `Vec` cannot fail. The output is a finished LZ4
/// frame, which starts with the magic number 0x184D2204 in little-endian
/// order.
#[verifier::external_body]
fn lz4_compress_raw(data: &Vec<u8>, level: u32) -> (r: Vec<u8>)
    ensures
        r@ == lz4_frame_bytes(data@, level),
        r@.len() >= 4,
        r@.subrange(0, 4) == u32_le_bytes(0x184D2204),
{
    let mut encoder = lz4::EncoderBuilder::new().level(level).build(Vec::new()).unwrap();
    encoder.write_all(data).unwrap();
    let (compressed, result) = encoder.finish();
    result.unwrap();
    compressed
}

/// Relies on the lz4 crate's `Decoder`: reading a frame that the crate's
/// `Encoder` produced succeeds and yields exactly the bytes that were
/// compressed.
#[verifier::external_body]
fn lz4_decompress_raw(data: &Vec<u8>) -> (r: Result<Vec<u8>, std::io::Error>)
    ensures
        forall|d: Seq<u8>, l: u32| data@ == lz4_frame_bytes(d, l) ==> r is Ok && r->Ok_0@ == d,
{
    let mut decoder = match lz4::Decoder::new(&data[..]) {
        Ok(d) => d,
        Err(e) => {
            return Err(e);
        },
    };
    let mut decompressed = Vec::new();
    match decoder.read_to_end(&mut decompressed) {
        Ok(_) => Ok(decompressed),
        Err(e) => Err(e),
    }
}

/// Relies on lz4_flex's `compress_prepend_size`: deterministic output for a
/// given input, starting with the uncompressed length as a little-endian
/// u32 (a silently truncating cast for longer inputs).
#[verifier::external_body]
fn lz4_flex_compress_raw(data: &Vec<u8>) -> (r: Vec<u8>)
    ensures
        r@ == lz4_block_bytes(data@),
        r@.len() >= 4,
        data@.len() <= u32::MAX ==> r@.subrange(0, 4) == u32_le_bytes(data@.len() as u32),
{
    lz4_flex::compress_prepend_size(data)
}

/// Relies on lz4_flex's `decompress_size_prepended`: decompressing a block
/// that `compress_prepend_size` produced succeeds and yields exactly the
/// bytes that were compressed, provided their length fits the block's
/// four-byte size prefix (longer inputs have that prefix silently
/// truncated, and their blocks do not decompress back).
#[verifier::external_body]
fn lz4_flex_decompress_raw(data: &Vec<u8>) -> (r: Result<
    Vec<u8>,
    lz4_flex::block::DecompressError,
>)
    ensures
        forall|d: Seq<u8>|
            d.len() <= u32::MAX && data@ == lz4_block_bytes(d) ==> r is Ok && r->Ok_0@ == d,
{
    lz4_flex::decompress_size_prepended(data)
}

/// Gzip compression at `level` (0 to 9): one complete gzip member, at least
/// 18 bytes, opening with the gzip magic bytes and closing with the input
/// length modulo 2^32, little-endian.
pub fn gzip_compression(data: &Vec<u8>, level: u32) -> (r: Vec<u8>)
    requires
        level <= 9,
    ensures
        r@ == gzip_bytes(data@, level),
        r@.len() >= 18,
        r@[0] == 0x1f,
        r@[1] == 0x8b,
        r@.subrange(r@.len() - 4, r@.len() as int) == u32_le_bytes(
            (data@.len() % 0x100000000) as u32,
        ),
{
    gzip_compress_raw(data, level)
}

/// Gzip decompression: inverts `gzip_compression` at every level.
pub fn gzip_decompression(data: &Vec<u8>) -> (r: Result<Vec<u8>, CodecError>)
    ensures
        forall|d: Seq<u8>, l: u32| data@ == gzip_bytes(d, l) ==> r is Ok && r->Ok_0@ == d,
{
    match gzip_decompress_raw(data) {
        Ok(v) => Ok(v),
        Err(_) => Err(CodecError::InvalidData),
    }
}

/// LZ4 frame compression at `level` (levels above 16 behave as 16): a
/// finished LZ4 frame, opening with the frame magic number in little-endian
/// order.
pub fn lz4_rs_compression(data: &Vec<u8>, level: u32) -> (r: Vec<u8>)
    ensures
        r@ == lz4_frame_bytes(data@, level),
        r@.len() >= 4,
        r@.subrange(0, 4) == u32_le_bytes(0x184D2204),
{
    lz4_compress_raw(data, level)
}

/// LZ4 frame decompression: inverts `lz4_rs_compression` at every level.
pub fn lz4_decompression(data: &Vec<u8>) -> (r: Result<Vec<u8>, CodecError>)
    ensures
        forall|d: Seq<u8>, l: u32| data@ == lz4_frame_bytes(d, l) ==> r is Ok && r->Ok_0@ == d,
{
    match lz4_decompress_raw(data) {
        Ok(v) => Ok(v),
        Err(_) => Err(CodecError::InvalidData),
    }
}

/// LZ4 block compression: the uncompressed length as a little-endian u32,
/// then the compressed block.
pub fn lz4_flex_compression(data: &Vec<u8>) -> (r: Vec<u8>)
    ensures
        r@ == lz4_block_bytes(data@),
        r@.len() >= 4,
        data@.len() <= u32::MAX ==> r@.subrange(0, 4) == u32_le_bytes(data@.len() as u32),
{
    lz4_flex_compress_raw(data)
}

/// LZ4 block decompression: inverts `lz4_flex_compression` for every input
/// whose length fits the block's four-byte size prefix.
pub fn lz4_flex_decompression(data: &Vec<u8>) -> (r: Result<Vec<u8>, CodecError>)
    ensures
        forall|d: Seq<u8>|
            d.len() <= u32::MAX && data@ == lz4_block_bytes(d) ==> r is Ok && r->Ok_0@ == d,
{
    match lz4_flex_decompress_raw(data) {
        Ok(v) => Ok(v),
        Err(_) => Err(CodecError::InvalidData),
    }
}

/// Law: gzip decompression of gzip compression returns the input unchanged,
/// for every input and every level.
pub fn gzip_round_trip(data: &Vec<u8>, level: u32) -> (r: Vec<u8>)
    requires
        level <= 9,
    ensures
        r@ == data@,
{
    let compressed = gzip_compression(data, level);
    match gzip_decompression(&compressed) {
        Ok(v) => v,
        Err(_) => vstd::pervasive::unreached(),
    }
}

/// Law: LZ4 frame decompression of LZ4 frame compression returns the input
/// unchanged, for every input and every level.
pub fn lz4_round_trip(data: &Vec<u8>, level: u32) -> (r: Vec<u8>)
    ensures
        r@ == data@,
{
    let compressed = lz4_rs_compression(data, level);
    match lz4_decompression(&compressed) {
        Ok(v) => v,
        Err(_) => vstd::pervasive::unreached(),
    }
}

/// Law: LZ4 block decompression of LZ4 block compression returns the input
/// unchanged, for every input whose length fits the block's four-byte size
/// prefix (for longer inputs the prefix is truncated and the block does not
/// decompress back).
pub fn lz4_flex_round_trip(data: &Vec<u8>) -> (r: Vec<u8>)
    requires
        data@.len() <= u32::MAX,
    ensures
        r@ == data@,
{
    let compressed = lz4_flex_compression(data);
    match lz4_flex_decompression(&compressed) {
        Ok(v) => v,
        Err(_) => vstd::pervasive::unreached(),
    }
}

} // verus!
