//! The compression pipeline: no, one or two zlib passes, as the save type
//! asks, with the length checks that go with each.

use crate::error::{bytes_outcome, FormatError, FormatFailure};
use crate::header::SaveType;
use std::io::{Read, Write};
use vstd::prelude::*;
use vstd::slice::*;

verus! {

/// What zlib makes of a stream: the data it holds, or the message of the
/// failure.
pub uninterp spec fn zlib_inflated(stream: Seq<u8>) -> Result<Seq<u8>, Seq<char>>;

/// The zlib stream that the compressor writes for data at the default
/// level, or the message of the failure.
pub uninterp spec fn zlib_deflated(data: Seq<u8>) -> Result<Seq<u8>, Seq<char>>;

/// `flate2::read::ZlibDecoder` read to its end: one inflate pass over
/// `stream`. The outcome depends on the bytes alone; on failure the message
/// of the decoder's error is handed back.
#[verifier::external_body]
fn zlib_decompress(stream: &[u8]) -> (r: Result<Vec<u8>, String>)
    ensures
        match r {
            Ok(data) => zlib_inflated(stream@) == Ok::<Seq<u8>, Seq<char>>(data@),
            Err(message) => zlib_inflated(stream@) == Err::<Seq<u8>, Seq<char>>(message@),
        },
{
    let mut data = Vec::new();
    match flate2::read::ZlibDecoder::new(stream).read_to_end(&mut data) {
        Ok(_) => Ok(data),
        Err(e) => Err(format!("{}", e)),
    }
}

/// `flate2::write::ZlibEncoder` at `Compression::default()`, written to and
/// finished: one deflate pass over `data`. The stream that comes out is one
/// that zlib inflates to `data` again.
#[verifier::external_body]
fn zlib_compress(data: &[u8]) -> (r: Result<Vec<u8>, String>)
    ensures
        match r {
            Ok(stream) => zlib_deflated(data@) == Ok::<Seq<u8>, Seq<char>>(stream@)
                && zlib_inflated(stream@) == Ok::<Seq<u8>, Seq<char>>(data@),
            Err(message) => zlib_deflated(data@) == Err::<Seq<u8>, Seq<char>>(message@),
        },
{
    let mut encoder = flate2::write::ZlibEncoder::new(Vec::new(), flate2::Compression::default());
    match encoder.write_all(data) {
        Ok(()) => encoder.finish().map_err(|e| format!("{}", e)),
        Err(e) => Err(format!("{}", e)),
    }
}

/// The outcome of one zlib pass as the pipeline reports it.
pub open spec fn spec_pass_outcome(pass: Result<Seq<u8>, Seq<char>>) -> Result<
    Seq<u8>,
    FormatFailure,
> {
    match pass {
        Ok(data) => Ok(data),
        Err(message) => Err(FormatFailure::CompressionFailure(message)),
    }
}

/// The first pass of a double-compressed payload, held against the length
/// that the header declares for it.
pub open spec fn spec_intermediate(pass: Result<Seq<u8>, Seq<char>>, declared_len: u32) -> Result<
    Seq<u8>,
    FormatFailure,
> {
    match pass {
        Ok(data) => if data.len() == declared_len {
            Ok(data)
        } else {
            Err(FormatFailure::LengthMismatch)
        },
        Err(message) => Err(FormatFailure::CompressionFailure(message)),
    }
}

/// The data behind a payload.
///
/// `Stored`: the payload itself. `Zlib`: the payload inflated once, if
/// `declared_len` is the payload's own length. `DoubleZlib`: the payload
/// inflated twice, if the first pass gives `declared_len` bytes.
pub open spec fn spec_inflate(payload: Seq<u8>, save_type: SaveType, declared_len: u32) -> Result<
    Seq<u8>,
    FormatFailure,
> {
    match save_type {
        SaveType::Stored => Ok(payload),
        SaveType::Zlib => if payload.len() == declared_len {
            spec_pass_outcome(zlib_inflated(payload))
        } else {
            Err(FormatFailure::LengthMismatch)
        },
        SaveType::DoubleZlib => match spec_intermediate(zlib_inflated(payload), declared_len) {
            Ok(intermediate) => spec_pass_outcome(zlib_inflated(intermediate)),
            Err(e) => Err(e),
        },
    }
}

/// The payload for data. Only `Zlib` is written: one deflate pass.
pub open spec fn spec_deflate(data: Seq<u8>, save_type: SaveType) -> Result<Seq<u8>, FormatFailure> {
    match save_type {
        SaveType::Zlib => spec_pass_outcome(zlib_deflated(data)),
        _ => Err(FormatFailure::UnsupportedSaveType),
    }
}

/// Whether a length found is the length declared.
pub fn check_declared_len(found: usize, declared_len: u32) -> (r: Result<(), FormatError>)
    ensures
        found == declared_len ==> r == Ok::<(), FormatError>(()),
        found != declared_len ==> r == Err::<(), FormatError>(FormatError::LengthMismatch),
{
    if found as u64 == declared_len as u64 {
        Ok(())
    } else {
        Err(FormatError::LengthMismatch)
    }
}

/// Reports the outcome of one zlib pass: the data, or a
/// `CompressionFailure` with the message.
pub fn pass_outcome(pass: Result<Vec<u8>, String>) -> (r: Result<Vec<u8>, FormatError>)
    ensures
        bytes_outcome(r) == spec_pass_outcome(
            match pass {
                Ok(data) => Ok(data@),
                Err(message) => Err(message@),
            },
        ),
{
    match pass {
        Ok(data) => Ok(data),
        Err(message) => Err(FormatError::CompressionFailure(message)),
    }
}

/// Reports the first pass of a double-compressed payload: a
/// `LengthMismatch` unless it gave exactly `declared_len` bytes.
pub fn intermediate(pass: Result<Vec<u8>, String>, declared_len: u32) -> (r: Result<
    Vec<u8>,
    FormatError,
>)
    ensures
        bytes_outcome(r) == spec_intermediate(
            match pass {
                Ok(data) => Ok(data@),
                Err(message) => Err(message@),
            },
            declared_len,
        ),
{
    let data = pass_outcome(pass)?;
    check_declared_len(data.len(), declared_len)?;
    Ok(data)
}

/// Decompresses a payload as its save type asks.
pub fn inflate(payload: &[u8], save_type: SaveType, declared_len: u32) -> (r: Result<
    Vec<u8>,
    FormatError,
>)
    ensures
        bytes_outcome(r) == spec_inflate(payload@, save_type, declared_len),
{
    match save_type {
        SaveType::Stored => Ok(slice_to_vec(payload)),
        SaveType::Zlib => {
            check_declared_len(payload.len(), declared_len)?;
            pass_outcome(zlib_decompress(payload))
        },
        SaveType::DoubleZlib => {
            let first = intermediate(zlib_decompress(payload), declared_len)?;
            pass_outcome(zlib_decompress(first.as_slice()))
        },
    }
}

/// Compresses data as a save type asks. Every save type but `Zlib` is
/// refused with `UnsupportedSaveType`.
pub fn deflate(data: &[u8], save_type: SaveType) -> (r: Result<Vec<u8>, FormatError>)
    ensures
        bytes_outcome(r) == spec_deflate(data@, save_type),
        r matches Ok(payload) ==> zlib_inflated(payload@) == Ok::<Seq<u8>, Seq<char>>(data@),
{
    match save_type {
        SaveType::Zlib => pass_outcome(zlib_compress(data)),
        _ => Err(FormatError::UnsupportedSaveType),
    }
}

} // verus!
