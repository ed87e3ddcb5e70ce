//! The gzip codecs: decoding with libdeflater, encoding with libdeflater or
//! zopfli.
//!
//! The codecs themselves are not verified. What is assumed of them is stated
//! on the trusted items below, over three names: [`gzip_payload`] for what a
//! stream decodes to, and [`libdeflate_gzip`] and [`libdeflate_gzip_bound`]
//! for what libdeflater's encoder gives.

use vstd::prelude::*;

verus! {

/// The payload of a gzip stream: the bytes that the first member of `stream`
/// decodes to, or `None` where `stream` is no well-formed gzip stream.
///
/// This is gzip decoding as such, which the format fixes; it is given no body
/// here. The trusted items below are the only statements about it.
pub uninterp spec fn gzip_payload(stream: Seq<u8>) -> Option<Seq<u8>>;

/// The largest output buffer that is ever handed to the decoder. It equals
/// `isize::MAX`, the most that one allocation can hold.
pub open spec fn max_payload_len() -> nat {
    (usize::MAX / 2) as nat
}

/// `libdeflater::Decompressor`, a decoder's working memory. Nothing of it is
/// seen here.
#[verifier::external_type_specification]
#[verifier::external_body]
pub struct ExDecompressor(libdeflater::Decompressor);

/// `libdeflater::Decompressor::new`: allocates a decoder. Nothing is assumed
/// of the value; it is only handed on to [`gzip_decompress_into`].
pub assume_specification[ libdeflater::Decompressor::new ]() -> (decompressor:
    libdeflater::Decompressor)
;

/// Why one decoding attempt did not succeed.
#[derive(Clone, Copy, Debug, PartialEq, Eq, Structural)]
enum InflateFailure {
    /// The input is not a well-formed gzip stream.
    BadData,
    /// The output buffer was too small for the payload.
    InsufficientSpace,
}

/// `libdeflater::Decompressor::gzip_decompress`, with the whole of `dest` as
/// the output buffer.
///
/// Assumed, and not proved: the call leaves the length of `dest` alone; on
/// success it returns the number of payload bytes, which then stand at the
/// front of `dest`; it reports bad data only for a stream that has no payload;
/// and it reports insufficient space only where the payload, if there is one,
/// is longer than `dest`.
#[verifier::external_body]
fn gzip_decompress_into(
    decompressor: &mut libdeflater::Decompressor,
    data: &[u8],
    dest: &mut Vec<u8>,
) -> (r: Result<usize, InflateFailure>)
    ensures
        final(dest)@.len() == old(dest)@.len(),
        match r {
            Ok(n) => n <= old(dest)@.len() && gzip_payload(data@) == Some(
                final(dest)@.subrange(0, n as int),
            ),
            Err(InflateFailure::BadData) => gzip_payload(data@) is None,
            Err(InflateFailure::InsufficientSpace) => gzip_payload(data@) matches Some(p)
                ==> p.len() > old(dest)@.len(),
        },
{
    match decompressor.gzip_decompress(data, dest.as_mut_slice()) {
        Ok(n) => Ok(n),
        Err(libdeflater::DecompressionError::BadData) => Err(InflateFailure::BadData),
        Err(libdeflater::DecompressionError::InsufficientSpace) => Err(
            InflateFailure::InsufficientSpace,
        ),
    }
}

/// Why a file could not be decoded.
#[derive(Clone, Copy, Debug, PartialEq, Eq, Structural)]
pub enum DecodeError {
    /// The bytes are not a well-formed gzip stream.
    BadData,
    /// The decoder asked for more room than one buffer can have.
    TooLarge,
}

impl DecodeError {
    /// What each error says of the stream that it was returned for.
    pub open spec fn explains(self, stream: Seq<u8>) -> bool {
        match self {
            DecodeError::BadData => gzip_payload(stream) is None,
            DecodeError::TooLarge => gzip_payload(stream) matches Some(p) ==> p.len()
                > max_payload_len(),
        }
    }
}

/// A stream that [`decompress`] is bound to decode: one with a payload of at
/// most [`max_payload_len`] bytes.
pub open spec fn decodable(stream: Seq<u8>) -> bool {
    gzip_payload(stream) matches Some(p) && p.len() <= max_payload_len()
}

/// Decodes a gzip stream into its payload.
///
/// The decoder needs the output buffer ahead of time, so it is tried with a
/// buffer of twice the input's length, and with one twice as large again each
/// time it reports that the payload did not fit.
///
/// A [`decodable`] stream is always decoded, and what is returned is its
/// payload. `BadData` is returned only for bytes that have no payload,
/// `TooLarge` only where no buffer of at most [`max_payload_len`] bytes was
/// enough.
pub fn decompress(data: &[u8]) -> (r: Result<Vec<u8>, DecodeError>)
    ensures
        match r {
            Ok(payload) => gzip_payload(data@) == Some(payload@),
            Err(e) => e.explains(data@),
        },
        decodable(data@) ==> r is Ok,
{
    let limit: usize = usize::MAX / 2;
    let mut decompressor = libdeflater::Decompressor::new();
    let mut cap: usize = if data.len() <= limit / 2 {
        data.len() * 2
    } else {
        limit
    };
    let mut dest: Vec<u8> = vec![0u8; cap];
    loop
        invariant
            limit == usize::MAX / 2,
            cap <= limit,
            dest@.len() == cap,
        decreases limit - cap,
    {
        match gzip_decompress_into(&mut decompressor, data, &mut dest) {
            Ok(n) => {
                dest.truncate(n);
                return Ok(dest);
            },
            Err(InflateFailure::BadData) => {
                return Err(DecodeError::BadData);
            },
            Err(InflateFailure::InsufficientSpace) => {
                if cap >= limit {
                    return Err(DecodeError::TooLarge);
                }
                cap = if cap == 0 {
                    1
                } else if cap <= limit / 2 {
                    cap * 2
                } else {
                    limit
                };
                dest.resize(cap, 0u8);
            },
        }
    }
}

/// `libdeflater::CompressionError`, the failure of an encoding. Nothing of it
/// is seen here.
#[verifier::external_type_specification]
#[verifier::external_body]
pub struct ExCompressionError(libdeflater::CompressionError);

/// `std::io::Error`, which zopfli returns where writing its output fails.
/// Nothing of it is seen here.
#[verifier::external_type_specification]
#[verifier::external_body]
pub struct ExIoError(std::io::Error);

/// The highest compression level that libdeflater accepts.
pub const MAX_LEVEL: u8 = 12;

/// The length of the shortest gzip header and of the gzip trailer together.
/// Every gzip stream is longer.
pub const GZIP_OVERHEAD: usize = 18;

/// The gzip stream that libdeflater writes for `data` at `level`, for a level
/// of at most [`MAX_LEVEL`].
///
/// The encoder uses neither chance nor the clock nor floating point, so the
/// stream depends on the level and the bytes alone. It is given no body here;
/// the two wrappers below are the only statements about it.
pub uninterp spec fn libdeflate_gzip(level: u8, data: Seq<u8>) -> Seq<u8>;

/// The size of the output buffer that libdeflater asks for to encode
/// `n_bytes` bytes at `level`, for a level of at most [`MAX_LEVEL`]: its
/// worst case for any input of that length.
pub uninterp spec fn libdeflate_gzip_bound(level: u8, n_bytes: usize) -> usize;

/// `libdeflater::Compressor::gzip_compress_bound`, on a compressor made for
/// `level` by `CompressionLvl::new` and `Compressor::new`.
///
/// Assumed, and not proved: the bound depends on the level and the length
/// alone.
#[verifier::external_body]
fn gzip_compress_bound(level: u8, n_bytes: usize) -> (bound: usize)
    requires
        level <= MAX_LEVEL,
    ensures
        bound == libdeflate_gzip_bound(level, n_bytes),
{
    let lvl = libdeflater::CompressionLvl::new(level.into()).unwrap();
    libdeflater::Compressor::new(lvl).gzip_compress_bound(n_bytes)
}

/// `libdeflater::Compressor::gzip_compress`, on a compressor made for `level`
/// by `CompressionLvl::new` and `Compressor::new`, with the whole of `dest`
/// as the output buffer.
///
/// Assumed, and not proved: the call leaves the length of `dest` alone; on
/// success it returns the length of a gzip stream that then stands at the
/// front of `dest`, that is longer than [`GZIP_OVERHEAD`] and that has `data`
/// as its payload; and in a buffer of just the size that
/// `gzip_compress_bound` gives for the length of `data` it succeeds, with the
/// stream that the level and `data` fix.
#[verifier::external_body]
fn gzip_compress_into(level: u8, data: &[u8], dest: &mut Vec<u8>) -> (r: Result<
    usize,
    libdeflater::CompressionError,
>)
    requires
        level <= MAX_LEVEL,
    ensures
        final(dest)@.len() == old(dest)@.len(),
        r matches Ok(n) ==> GZIP_OVERHEAD < n <= old(dest)@.len() && gzip_payload(
            final(dest)@.subrange(0, n as int),
        ) == Some(data@),
        old(dest)@.len() == libdeflate_gzip_bound(level, data@.len() as usize) ==> (r matches Ok(
            n,
        ) && final(dest)@.subrange(0, n as int) == libdeflate_gzip(level, data@)),
{
    let lvl = libdeflater::CompressionLvl::new(level.into()).unwrap();
    libdeflater::Compressor::new(lvl).gzip_compress(data, dest.as_mut_slice())
}

/// `zopfli::compress` in the gzip format, with `iterations` as the iteration
/// count and every other option at its default, reading `data` and writing
/// to `out`.
///
/// Assumed, and not proved: the call succeeds, since it fails only where
/// reading or writing fails, which a slice and a `Vec` never do; and `out`,
/// which was empty, then holds a gzip stream whose payload is `data`.
#[verifier::external_body]
fn zopfli_gzip_into(data: &[u8], iterations: u64, out: &mut Vec<u8>) -> (r: Result<
    (),
    std::io::Error,
>)
    requires
        iterations > 0,
        old(out)@.len() == 0,
    ensures
        r is Ok,
        gzip_payload(final(out)@) == Some(data@),
{
    let options = zopfli::Options {
        iteration_count: std::num::NonZeroU64::new(iterations).unwrap(),
        ..Default::default()
    };
    zopfli::compress(options, zopfli::Format::Gzip, data, out)
}

/// Why a payload could not be encoded.
#[derive(Clone, Copy, Debug, PartialEq, Eq, Structural)]
pub enum EncodeError {
    /// The encoder asks for more room than one buffer can have.
    TooLarge,
    /// The encoder reported a failure.
    Failed,
}

/// Whether libdeflater's output buffer for `len` bytes at `level` is one that
/// can be had: at most [`max_payload_len`] bytes.
pub open spec fn libdeflate_fits(level: u8, len: nat) -> bool {
    libdeflate_gzip_bound(level, len as usize) <= max_payload_len()
}

/// Encodes `data` as a gzip stream with libdeflater at `level`.
///
/// Where the encoder's buffer can be had, the result is the stream that
/// libdeflater writes for the level and the bytes: it has `data` as its
/// payload, is longer than [`GZIP_OVERHEAD`] and no longer than the encoder's
/// bound. Where the buffer cannot be had, and only there, the result is
/// `TooLarge`.
pub fn compress_libdeflater(data: &[u8], level: u8) -> (r: Result<Vec<u8>, EncodeError>)
    requires
        level <= MAX_LEVEL,
    ensures
        match r {
            Ok(stream) => {
                &&& libdeflate_fits(level, data@.len())
                &&& stream@ == libdeflate_gzip(level, data@)
                &&& gzip_payload(stream@) == Some(data@)
                &&& GZIP_OVERHEAD < stream@.len() <= libdeflate_gzip_bound(
                    level,
                    data@.len() as usize,
                )
            },
            Err(e) => e == EncodeError::TooLarge && !libdeflate_fits(level, data@.len()),
        },
{
    let capacity = gzip_compress_bound(level, data.len());
    if capacity > usize::MAX / 2 {
        return Err(EncodeError::TooLarge);
    }
    let mut dest: Vec<u8> = vec![0u8; capacity];
    match gzip_compress_into(level, data, &mut dest) {
        Ok(len) => {
            dest.truncate(len);
            Ok(dest)
        },
        Err(_) => Err(EncodeError::Failed),
    }
}

/// Encodes `stuff` as a gzip stream with zopfli, which searches for a short
/// encoding `iter` times over.
///
/// A stream is always returned, and it has `stuff` as its payload. Which
/// stream it is, among those with that payload, is zopfli's choice.
pub fn compress_zopfli(stuff: &[u8], iter: u64) -> (r: Result<Vec<u8>, EncodeError>)
    requires
        iter > 0,
    ensures
        r matches Ok(stream) && gzip_payload(stream@) == Some(stuff@),
{
    let mut output: Vec<u8> = Vec::with_capacity(stuff.len());
    match zopfli_gzip_into(stuff, iter, &mut output) {
        Ok(_) => Ok(output),
        Err(_) => Err(EncodeError::Failed),
    }
}

} // verus!
