//! The codecs themselves: one function to compress and one to decompress a whole payload
//! for each of them. The compressors are outside this crate; what they return is named
//! here, and the functions say which error a failure becomes.
//!
//! The stream codecs (gzip, zstd, brotli, deflate, xz) write into memory, which never
//! makes them wait, so each is driven to its end on the spot, without a runtime. Whether
//! one succeeds, and with what, depends on nothing but what it is given.

use crate::codec::Codec;
use crate::error::Error;
use async_compression::tokio::write::BrotliDecoder;
use async_compression::tokio::write::BrotliEncoder;
use async_compression::tokio::write::DeflateDecoder;
use async_compression::tokio::write::DeflateEncoder;
use async_compression::tokio::write::GzipDecoder;
use async_compression::tokio::write::GzipEncoder;
use async_compression::tokio::write::XzDecoder;
use async_compression::tokio::write::XzEncoder;
use async_compression::tokio::write::ZstdDecoder;
use async_compression::tokio::write::ZstdEncoder;
use async_compression::Level;
use std::future::Future;
use std::io::ErrorKind;
use std::task::Context;
use std::task::Poll;
use std::task::Waker;
use tokio::io::AsyncWriteExt;
use vstd::prelude::*;

verus! {

/// What the gzip compressor makes of `data` at `level`; `None` where it fails.
pub uninterp spec fn gzip_encoded(data: Seq<u8>, level: i32) -> Option<Seq<u8>>;

/// What the gzip decompressor makes of `payload`; `None` where it rejects it.
pub uninterp spec fn gzip_decoded(payload: Seq<u8>) -> Option<Seq<u8>>;

/// What the zstd compressor makes of `data` at `level`; `None` where it fails.
pub uninterp spec fn zstd_encoded(data: Seq<u8>, level: i32) -> Option<Seq<u8>>;

/// What the zstd decompressor makes of `payload`; `None` where it rejects it.
pub uninterp spec fn zstd_decoded(payload: Seq<u8>) -> Option<Seq<u8>>;

/// What the brotli compressor makes of `data` at `level`; `None` where it fails.
pub uninterp spec fn brotli_encoded(data: Seq<u8>, level: i32) -> Option<Seq<u8>>;

/// What the brotli decompressor makes of `payload`; `None` where it rejects it.
pub uninterp spec fn brotli_decoded(payload: Seq<u8>) -> Option<Seq<u8>>;

/// What the deflate compressor makes of `data` at `level`; `None` where it fails.
pub uninterp spec fn deflate_encoded(data: Seq<u8>, level: i32) -> Option<Seq<u8>>;

/// What the deflate decompressor makes of `payload`; `None` where it rejects it.
pub uninterp spec fn deflate_decoded(payload: Seq<u8>) -> Option<Seq<u8>>;

/// What the xz compressor makes of `data` at `level`; `None` where it fails.
pub uninterp spec fn xz_encoded(data: Seq<u8>, level: i32) -> Option<Seq<u8>>;

/// What the xz decompressor makes of `payload`; `None` where it rejects it.
pub uninterp spec fn xz_decoded(payload: Seq<u8>) -> Option<Seq<u8>>;

/// What the snappy compressor makes of `data`.
pub uninterp spec fn snappy_encoded(data: Seq<u8>) -> Seq<u8>;

/// What the snappy decompressor makes of `payload`; `None` where it rejects it.
pub uninterp spec fn snappy_decoded(payload: Seq<u8>) -> Option<Seq<u8>>;

/// What the lz4 block compressor makes of `data`, the length in front.
pub uninterp spec fn lz4_encoded(data: Seq<u8>) -> Seq<u8>;

/// What the lz4 block decompressor makes of `payload`; `None` where it rejects it.
pub uninterp spec fn lz4_decoded(payload: Seq<u8>) -> Option<Seq<u8>>;

/// Whether snappy takes an input of `len` bytes: its largest possible output has to fit
/// in 32 bits.
pub open spec fn snappy_fits(len: nat) -> bool {
    32 + len + len / 6 <= 0xFFFF_FFFF
}

/// `async_compression::tokio::write::GzipEncoder`, made by `with_quality` over an empty
/// vector, fed `data` by `write_all` and ended by `shutdown`, each polled once. A level
/// outside the codec's range is clamped. Writing into a vector never waits, so whether
/// the call succeeds, and the bytes that reach the vector then, depend on the input and
/// the level alone: `gzip_encoded`.
#[verifier::external_body]
fn gzip_compress(data: &[u8], level: i32) -> (r: Result<Vec<u8>, std::io::Error>)
    ensures
        r is Ok <==> gzip_encoded(data@, level) is Some,
        r matches Ok(out) ==> gzip_encoded(data@, level) == Some(out@),
{
    let mut writer = GzipEncoder::with_quality(Vec::new(), Level::Precise(level));
    let mut context = Context::from_waker(Waker::noop());
    match Box::pin(writer.write_all(data)).as_mut().poll(&mut context) {
        Poll::Ready(Ok(())) => match Box::pin(writer.shutdown()).as_mut().poll(&mut context) {
            Poll::Ready(Ok(())) => Ok(writer.into_inner()),
            Poll::Ready(Err(err)) => Err(err),
            Poll::Pending => Err(ErrorKind::WouldBlock.into()),
        },
        Poll::Ready(Err(err)) => Err(err),
        Poll::Pending => Err(ErrorKind::WouldBlock.into()),
    }
}

/// `async_compression::tokio::write::GzipDecoder`, made by `new` over an empty vector,
/// fed `payload` by `write_all` and ended by `shutdown`, each polled once. Writing into
/// a vector never waits, so whether the call succeeds, and the bytes that reach the
/// vector then, depend on the payload alone: `gzip_decoded`.
#[verifier::external_body]
fn gzip_decompress(payload: &[u8]) -> (r: Result<Vec<u8>, std::io::Error>)
    ensures
        r is Ok <==> gzip_decoded(payload@) is Some,
        r matches Ok(out) ==> gzip_decoded(payload@) == Some(out@),
{
    let mut writer = GzipDecoder::new(Vec::new());
    let mut context = Context::from_waker(Waker::noop());
    match Box::pin(writer.write_all(payload)).as_mut().poll(&mut context) {
        Poll::Ready(Ok(())) => match Box::pin(writer.shutdown()).as_mut().poll(&mut context) {
            Poll::Ready(Ok(())) => Ok(writer.into_inner()),
            Poll::Ready(Err(err)) => Err(err),
            Poll::Pending => Err(ErrorKind::WouldBlock.into()),
        },
        Poll::Ready(Err(err)) => Err(err),
        Poll::Pending => Err(ErrorKind::WouldBlock.into()),
    }
}

/// `async_compression::tokio::write::ZstdEncoder`, made by `with_quality` over an empty
/// vector, fed `data` by `write_all` and ended by `shutdown`, each polled once. A level
/// outside the codec's range is clamped. Writing into a vector never waits, so whether
/// the call succeeds, and the bytes that reach the vector then, depend on the input and
/// the level alone: `zstd_encoded`.
#[verifier::external_body]
fn zstd_compress(data: &[u8], level: i32) -> (r: Result<Vec<u8>, std::io::Error>)
    ensures
        r is Ok <==> zstd_encoded(data@, level) is Some,
        r matches Ok(out) ==> zstd_encoded(data@, level) == Some(out@),
{
    let mut writer = ZstdEncoder::with_quality(Vec::new(), Level::Precise(level));
    let mut context = Context::from_waker(Waker::noop());
    match Box::pin(writer.write_all(data)).as_mut().poll(&mut context) {
        Poll::Ready(Ok(())) => match Box::pin(writer.shutdown()).as_mut().poll(&mut context) {
            Poll::Ready(Ok(())) => Ok(writer.into_inner()),
            Poll::Ready(Err(err)) => Err(err),
            Poll::Pending => Err(ErrorKind::WouldBlock.into()),
        },
        Poll::Ready(Err(err)) => Err(err),
        Poll::Pending => Err(ErrorKind::WouldBlock.into()),
    }
}

/// `async_compression::tokio::write::ZstdDecoder`, made by `new` over an empty vector,
/// fed `payload` by `write_all` and ended by `shutdown`, each polled once. Writing into
/// a vector never waits, so whether the call succeeds, and the bytes that reach the
/// vector then, depend on the payload alone: `zstd_decoded`.
#[verifier::external_body]
fn zstd_decompress(payload: &[u8]) -> (r: Result<Vec<u8>, std::io::Error>)
    ensures
        r is Ok <==> zstd_decoded(payload@) is Some,
        r matches Ok(out) ==> zstd_decoded(payload@) == Some(out@),
{
    let mut writer = ZstdDecoder::new(Vec::new());
    let mut context = Context::from_waker(Waker::noop());
    match Box::pin(writer.write_all(payload)).as_mut().poll(&mut context) {
        Poll::Ready(Ok(())) => match Box::pin(writer.shutdown()).as_mut().poll(&mut context) {
            Poll::Ready(Ok(())) => Ok(writer.into_inner()),
            Poll::Ready(Err(err)) => Err(err),
            Poll::Pending => Err(ErrorKind::WouldBlock.into()),
        },
        Poll::Ready(Err(err)) => Err(err),
        Poll::Pending => Err(ErrorKind::WouldBlock.into()),
    }
}

/// `async_compression::tokio::write::BrotliEncoder`, made by `with_quality` over an empty
/// vector, fed `data` by `write_all` and ended by `shutdown`, each polled once. A level
/// outside the codec's range is clamped. Writing into a vector never waits, so whether
/// the call succeeds, and the bytes that reach the vector then, depend on the input and
/// the level alone: `brotli_encoded`.
#[verifier::external_body]
fn brotli_compress(data: &[u8], level: i32) -> (r: Result<Vec<u8>, std::io::Error>)
    ensures
        r is Ok <==> brotli_encoded(data@, level) is Some,
        r matches Ok(out) ==> brotli_encoded(data@, level) == Some(out@),
{
    let mut writer = BrotliEncoder::with_quality(Vec::new(), Level::Precise(level));
    let mut context = Context::from_waker(Waker::noop());
    match Box::pin(writer.write_all(data)).as_mut().poll(&mut context) {
        Poll::Ready(Ok(())) => match Box::pin(writer.shutdown()).as_mut().poll(&mut context) {
            Poll::Ready(Ok(())) => Ok(writer.into_inner()),
            Poll::Ready(Err(err)) => Err(err),
            Poll::Pending => Err(ErrorKind::WouldBlock.into()),
        },
        Poll::Ready(Err(err)) => Err(err),
        Poll::Pending => Err(ErrorKind::WouldBlock.into()),
    }
}

/// `async_compression::tokio::write::BrotliDecoder`, made by `new` over an empty vector,
/// fed `payload` by `write_all` and ended by `shutdown`, each polled once. Writing into
/// a vector never waits, so whether the call succeeds, and the bytes that reach the
/// vector then, depend on the payload alone: `brotli_decoded`.
#[verifier::external_body]
fn brotli_decompress(payload: &[u8]) -> (r: Result<Vec<u8>, std::io::Error>)
    ensures
        r is Ok <==> brotli_decoded(payload@) is Some,
        r matches Ok(out) ==> brotli_decoded(payload@) == Some(out@),
{
    let mut writer = BrotliDecoder::new(Vec::new());
    let mut context = Context::from_waker(Waker::noop());
    match Box::pin(writer.write_all(payload)).as_mut().poll(&mut context) {
        Poll::Ready(Ok(())) => match Box::pin(writer.shutdown()).as_mut().poll(&mut context) {
            Poll::Ready(Ok(())) => Ok(writer.into_inner()),
            Poll::Ready(Err(err)) => Err(err),
            Poll::Pending => Err(ErrorKind::WouldBlock.into()),
        },
        Poll::Ready(Err(err)) => Err(err),
        Poll::Pending => Err(ErrorKind::WouldBlock.into()),
    }
}

/// `async_compression::tokio::write::DeflateEncoder`, made by `with_quality` over an empty
/// vector, fed `data` by `write_all` and ended by `shutdown`, each polled once. A level
/// outside the codec's range is clamped. Writing into a vector never waits, so whether
/// the call succeeds, and the bytes that reach the vector then, depend on the input and
/// the level alone: `deflate_encoded`.
#[verifier::external_body]
fn deflate_compress(data: &[u8], level: i32) -> (r: Result<Vec<u8>, std::io::Error>)
    ensures
        r is Ok <==> deflate_encoded(data@, level) is Some,
        r matches Ok(out) ==> deflate_encoded(data@, level) == Some(out@),
{
    let mut writer = DeflateEncoder::with_quality(Vec::new(), Level::Precise(level));
    let mut context = Context::from_waker(Waker::noop());
    match Box::pin(writer.write_all(data)).as_mut().poll(&mut context) {
        Poll::Ready(Ok(())) => match Box::pin(writer.shutdown()).as_mut().poll(&mut context) {
            Poll::Ready(Ok(())) => Ok(writer.into_inner()),
            Poll::Ready(Err(err)) => Err(err),
            Poll::Pending => Err(ErrorKind::WouldBlock.into()),
        },
        Poll::Ready(Err(err)) => Err(err),
        Poll::Pending => Err(ErrorKind::WouldBlock.into()),
    }
}

/// `async_compression::tokio::write::DeflateDecoder`, made by `new` over an empty vector,
/// fed `payload` by `write_all` and ended by `shutdown`, each polled once. Writing into
/// a vector never waits, so whether the call succeeds, and the bytes that reach the
/// vector then, depend on the payload alone: `deflate_decoded`.
#[verifier::external_body]
fn deflate_decompress(payload: &[u8]) -> (r: Result<Vec<u8>, std::io::Error>)
    ensures
        r is Ok <==> deflate_decoded(payload@) is Some,
        r matches Ok(out) ==> deflate_decoded(payload@) == Some(out@),
{
    let mut writer = DeflateDecoder::new(Vec::new());
    let mut context = Context::from_waker(Waker::noop());
    match Box::pin(writer.write_all(payload)).as_mut().poll(&mut context) {
        Poll::Ready(Ok(())) => match Box::pin(writer.shutdown()).as_mut().poll(&mut context) {
            Poll::Ready(Ok(())) => Ok(writer.into_inner()),
            Poll::Ready(Err(err)) => Err(err),
            Poll::Pending => Err(ErrorKind::WouldBlock.into()),
        },
        Poll::Ready(Err(err)) => Err(err),
        Poll::Pending => Err(ErrorKind::WouldBlock.into()),
    }
}

/// `async_compression::tokio::write::XzEncoder`, made by `with_quality` over an empty
/// vector, fed `data` by `write_all` and ended by `shutdown`, each polled once. A level
/// outside the codec's range is clamped. Writing into a vector never waits, so whether
/// the call succeeds, and the bytes that reach the vector then, depend on the input and
/// the level alone: `xz_encoded`.
#[verifier::external_body]
fn xz_compress(data: &[u8], level: i32) -> (r: Result<Vec<u8>, std::io::Error>)
    ensures
        r is Ok <==> xz_encoded(data@, level) is Some,
        r matches Ok(out) ==> xz_encoded(data@, level) == Some(out@),
{
    let mut writer = XzEncoder::with_quality(Vec::new(), Level::Precise(level));
    let mut context = Context::from_waker(Waker::noop());
    match Box::pin(writer.write_all(data)).as_mut().poll(&mut context) {
        Poll::Ready(Ok(())) => match Box::pin(writer.shutdown()).as_mut().poll(&mut context) {
            Poll::Ready(Ok(())) => Ok(writer.into_inner()),
            Poll::Ready(Err(err)) => Err(err),
            Poll::Pending => Err(ErrorKind::WouldBlock.into()),
        },
        Poll::Ready(Err(err)) => Err(err),
        Poll::Pending => Err(ErrorKind::WouldBlock.into()),
    }
}

/// `async_compression::tokio::write::XzDecoder`, made by `new` over an empty vector,
/// fed `payload` by `write_all` and ended by `shutdown`, each polled once. Writing into
/// a vector never waits, so whether the call succeeds, and the bytes that reach the
/// vector then, depend on the payload alone: `xz_decoded`.
#[verifier::external_body]
fn xz_decompress(payload: &[u8]) -> (r: Result<Vec<u8>, std::io::Error>)
    ensures
        r is Ok <==> xz_decoded(payload@) is Some,
        r matches Ok(out) ==> xz_decoded(payload@) == Some(out@),
{
    let mut writer = XzDecoder::new(Vec::new());
    let mut context = Context::from_waker(Waker::noop());
    match Box::pin(writer.write_all(payload)).as_mut().poll(&mut context) {
        Poll::Ready(Ok(())) => match Box::pin(writer.shutdown()).as_mut().poll(&mut context) {
            Poll::Ready(Ok(())) => Ok(writer.into_inner()),
            Poll::Ready(Err(err)) => Err(err),
            Poll::Pending => Err(ErrorKind::WouldBlock.into()),
        },
        Poll::Ready(Err(err)) => Err(err),
        Poll::Pending => Err(ErrorKind::WouldBlock.into()),
    }
}

/// `snap::raw::Encoder::compress_vec` on a fresh encoder. It fails exactly where the
/// input is too long for the format; its output is named `snappy_encoded`.
#[verifier::external_body]
fn snappy_compress(data: &[u8]) -> (r: Result<Vec<u8>, snap::Error>)
    ensures
        r is Ok <==> snappy_fits(data@.len()),
        r matches Ok(out) ==> out@ == snappy_encoded(data@),
{
    snap::raw::Encoder::new().compress_vec(data)
}

/// `snap::raw::Decoder::decompress_vec` on a fresh decoder. Whether it accepts the
/// payload, and what it returns then, depends on the payload alone: `snappy_decoded`.
#[verifier::external_body]
fn snappy_decompress(payload: &[u8]) -> (r: Result<Vec<u8>, snap::Error>)
    ensures
        r is Ok <==> snappy_decoded(payload@) is Some,
        r matches Ok(out) ==> snappy_decoded(payload@) == Some(out@),
{
    snap::raw::Decoder::new().decompress_vec(payload)
}

/// `lz4_flex::block::compress_prepend_size`, which cannot fail. Its output is named
/// `lz4_encoded`.
#[verifier::external_body]
fn lz4_compress(data: &[u8]) -> (r: Vec<u8>)
    ensures
        r@ == lz4_encoded(data@),
{
    lz4_flex::block::compress_prepend_size(data)
}

/// `lz4_flex::block::decompress_size_prepended`. Whether it accepts the payload, and
/// what it returns then, depends on the payload alone: `lz4_decoded`.
#[verifier::external_body]
fn lz4_decompress(payload: &[u8]) -> (r: Result<Vec<u8>, lz4_flex::block::DecompressError>)
    ensures
        r is Ok <==> lz4_decoded(payload@) is Some,
        r matches Ok(out) ==> lz4_decoded(payload@) == Some(out@),
{
    lz4_flex::block::decompress_size_prepended(payload)
}

/// The outcome of a stream codec, with its failure as this crate's `Io` error.
fn stream_outcome(outcome: Result<Vec<u8>, std::io::Error>) -> (r: Result<Vec<u8>, Error>)
    ensures
        match outcome {
            Ok(out) => r == Ok::<Vec<u8>, Error>(out),
            Err(err) => r == Err::<Vec<u8>, Error>(Error::Io { source: err }),
        },
{
    match outcome {
        Ok(out) => Ok(out),
        Err(err) => Err(Error::Io { source: err }),
    }
}

/// Compresses `data` with gzip at `level`. Where gzip fails the error is `Io`.
pub fn gzip_encode(data: &[u8], level: i32) -> (r: Result<Vec<u8>, Error>)
    ensures
        match gzip_encoded(data@, level) {
            Some(bytes) => r matches Ok(out) && out@ == bytes,
            None => r matches Err(e) && e is Io,
        },
{
    stream_outcome(gzip_compress(data, level))
}

/// Decompresses a gzip payload. A payload that gzip rejects is an `Io` error.
pub fn gzip_decode(payload: &[u8]) -> (r: Result<Vec<u8>, Error>)
    ensures
        match gzip_decoded(payload@) {
            Some(data) => r matches Ok(out) && out@ == data,
            None => r matches Err(e) && e is Io,
        },
{
    stream_outcome(gzip_decompress(payload))
}

/// Compresses `data` with zstd at `level`. Where zstd fails the error is `Io`.
pub fn zstd_encode(data: &[u8], level: i32) -> (r: Result<Vec<u8>, Error>)
    ensures
        match zstd_encoded(data@, level) {
            Some(bytes) => r matches Ok(out) && out@ == bytes,
            None => r matches Err(e) && e is Io,
        },
{
    stream_outcome(zstd_compress(data, level))
}

/// Decompresses a zstd payload. A payload that zstd rejects is an `Io` error.
pub fn zstd_decode(payload: &[u8]) -> (r: Result<Vec<u8>, Error>)
    ensures
        match zstd_decoded(payload@) {
            Some(data) => r matches Ok(out) && out@ == data,
            None => r matches Err(e) && e is Io,
        },
{
    stream_outcome(zstd_decompress(payload))
}

/// Compresses `data` with brotli at `level`. Where brotli fails the error is `Io`.
pub fn brotli_encode(data: &[u8], level: i32) -> (r: Result<Vec<u8>, Error>)
    ensures
        match brotli_encoded(data@, level) {
            Some(bytes) => r matches Ok(out) && out@ == bytes,
            None => r matches Err(e) && e is Io,
        },
{
    stream_outcome(brotli_compress(data, level))
}

/// Decompresses a brotli payload. A payload that brotli rejects is an `Io` error.
pub fn brotli_decode(payload: &[u8]) -> (r: Result<Vec<u8>, Error>)
    ensures
        match brotli_decoded(payload@) {
            Some(data) => r matches Ok(out) && out@ == data,
            None => r matches Err(e) && e is Io,
        },
{
    stream_outcome(brotli_decompress(payload))
}

/// Compresses `data` with deflate at `level`. Where deflate fails the error is `Io`.
pub fn deflate_encode(data: &[u8], level: i32) -> (r: Result<Vec<u8>, Error>)
    ensures
        match deflate_encoded(data@, level) {
            Some(bytes) => r matches Ok(out) && out@ == bytes,
            None => r matches Err(e) && e is Io,
        },
{
    stream_outcome(deflate_compress(data, level))
}

/// Decompresses a deflate payload. A payload that deflate rejects is an `Io` error.
pub fn deflate_decode(payload: &[u8]) -> (r: Result<Vec<u8>, Error>)
    ensures
        match deflate_decoded(payload@) {
            Some(data) => r matches Ok(out) && out@ == data,
            None => r matches Err(e) && e is Io,
        },
{
    stream_outcome(deflate_decompress(payload))
}

/// Compresses `data` with xz at `level`. Where xz fails the error is `Io`.
pub fn xz_encode(data: &[u8], level: i32) -> (r: Result<Vec<u8>, Error>)
    ensures
        match xz_encoded(data@, level) {
            Some(bytes) => r matches Ok(out) && out@ == bytes,
            None => r matches Err(e) && e is Io,
        },
{
    stream_outcome(xz_compress(data, level))
}

/// Decompresses a xz payload. A payload that xz rejects is an `Io` error.
pub fn xz_decode(payload: &[u8]) -> (r: Result<Vec<u8>, Error>)
    ensures
        match xz_decoded(payload@) {
            Some(data) => r matches Ok(out) && out@ == data,
            None => r matches Err(e) && e is Io,
        },
{
    stream_outcome(xz_decompress(payload))
}

/// Compresses `data` with snappy, as one raw block. Snappy has no level. The input is
/// refused, with a `Snappy` error, exactly where it is too long for the format.
pub fn snappy_encode(data: &[u8]) -> (r: Result<Vec<u8>, Error>)
    ensures
        match r {
            Ok(out) => snappy_fits(data@.len()) && out@ == snappy_encoded(data@),
            Err(e) => !snappy_fits(data@.len()) && e is Snappy,
        },
{
    match snappy_compress(data) {
        Ok(out) => Ok(out),
        Err(err) => Err(Error::Snappy { source: err }),
    }
}

/// Decompresses a raw snappy block. A payload that snappy rejects is a `Snappy` error.
pub fn snappy_decode(payload: &[u8]) -> (r: Result<Vec<u8>, Error>)
    ensures
        match snappy_decoded(payload@) {
            Some(data) => r matches Ok(out) && out@ == data,
            None => r matches Err(e) && e is Snappy,
        },
{
    match snappy_decompress(payload) {
        Ok(out) => Ok(out),
        Err(err) => Err(Error::Snappy { source: err }),
    }
}

/// Compresses `data` as one lz4 block with its length in front. Lz4 has no level, and
/// the compression cannot fail.
pub fn lz4_encode(data: &[u8]) -> (r: Result<Vec<u8>, Error>)
    ensures
        r matches Ok(out) && out@ == lz4_encoded(data@),
{
    Ok(lz4_compress(data))
}

/// Decompresses an lz4 block that has its length in front. A payload that lz4 rejects
/// is an `Lz4Decompress` error.
pub fn lz4_decode(payload: &[u8]) -> (r: Result<Vec<u8>, Error>)
    ensures
        match lz4_decoded(payload@) {
            Some(data) => r matches Ok(out) && out@ == data,
            None => r matches Err(e) && e is Lz4Decompress,
        },
{
    match lz4_decompress(payload) {
        Ok(out) => Ok(out),
        Err(err) => Err(Error::Lz4Decompress { source: err }),
    }
}

/// What compressing `data` with `codec` at `level` gives; `None` where the codec fails.
/// Snappy and lz4 have no level: for them the result is the same at every level.
pub open spec fn encoded(codec: Codec, data: Seq<u8>, level: i32) -> Option<Seq<u8>> {
    match codec {
        Codec::Gzip => gzip_encoded(data, level),
        Codec::Zstd => zstd_encoded(data, level),
        Codec::Brotli => brotli_encoded(data, level),
        Codec::Deflate => deflate_encoded(data, level),
        Codec::Snappy => if snappy_fits(data.len()) {
            Some(snappy_encoded(data))
        } else {
            None
        },
        Codec::Lz4 => Some(lz4_encoded(data)),
        Codec::Xz => xz_encoded(data, level),
    }
}

/// What decompressing `payload` with `codec` gives; `None` where the codec rejects it.
pub open spec fn decoded(codec: Codec, payload: Seq<u8>) -> Option<Seq<u8>> {
    match codec {
        Codec::Gzip => gzip_decoded(payload),
        Codec::Zstd => zstd_decoded(payload),
        Codec::Brotli => brotli_decoded(payload),
        Codec::Deflate => deflate_decoded(payload),
        Codec::Snappy => snappy_decoded(payload),
        Codec::Lz4 => lz4_decoded(payload),
        Codec::Xz => xz_decoded(payload),
    }
}

/// Whether `e` is the kind of error that a failure of `codec` becomes: `Snappy` for
/// snappy, `Lz4Decompress` for lz4, `Io` for the stream codecs.
pub open spec fn is_codec_error(codec: Codec, e: Error) -> bool {
    match codec {
        Codec::Snappy => e is Snappy,
        Codec::Lz4 => e is Lz4Decompress,
        _ => e is Io,
    }
}

/// Compresses `data` with `codec`. The level reaches the codecs that have one. Lz4
/// never fails, snappy where the input is too long for it.
pub fn encode(codec: Codec, data: &[u8], level: i32) -> (r: Result<Vec<u8>, Error>)
    ensures
        match encoded(codec, data@, level) {
            Some(bytes) => r matches Ok(out) && out@ == bytes,
            None => r matches Err(e) && is_codec_error(codec, e),
        },
{
    match codec {
        Codec::Gzip => gzip_encode(data, level),
        Codec::Zstd => zstd_encode(data, level),
        Codec::Brotli => brotli_encode(data, level),
        Codec::Deflate => deflate_encode(data, level),
        Codec::Snappy => snappy_encode(data),
        Codec::Lz4 => lz4_encode(data),
        Codec::Xz => xz_encode(data, level),
    }
}

/// Decompresses `payload` with `codec`. A payload that the codec rejects is that
/// codec's error; no other payload fails.
pub fn decode(codec: Codec, payload: &[u8]) -> (r: Result<Vec<u8>, Error>)
    ensures
        match decoded(codec, payload@) {
            Some(data) => r matches Ok(out) && out@ == data,
            None => r matches Err(e) && is_codec_error(codec, e),
        },
{
    match codec {
        Codec::Gzip => gzip_decode(payload),
        Codec::Zstd => zstd_decode(payload),
        Codec::Brotli => brotli_decode(payload),
        Codec::Deflate => deflate_decode(payload),
        Codec::Snappy => snappy_decode(payload),
        Codec::Lz4 => lz4_decode(payload),
        Codec::Xz => xz_decode(payload),
    }
}

/// A codec without a level compresses alike at every level.
pub proof fn lemma_level_ignored(codec: Codec, data: Seq<u8>, a: i32, b: i32)
    requires
        !codec.spec_uses_level(),
    ensures
        encoded(codec, data, a) == encoded(codec, data, b),
{
}

} // verus!
