//! Decoding a save container and encoding one.
//!
//! Each way has two steps here and one between them that the caller makes
//! with the save-tree codec. Decoding: [`decode_payload`] gives the data
//! behind the header; the caller reads the tree from the data;
//! [`finish_decode`] makes the document of what came back. Encoding: the
//! caller writes the tree as data; [`finish_encode`] compresses the data
//! and frames it.

use crate::compression::{
    deflate, inflate, spec_deflate, spec_inflate, spec_pass_outcome, zlib_deflated,
    zlib_inflated,
};
use crate::error::{
    bytes_outcome, decode_failure, encode_failure, outcome, spec_decode_failure,
    spec_encode_failure, spec_raw, FormatError, FormatFailure,
};
use crate::header::{
    lemma_parse_header_of_bytes, magic, parse_header, spec_parse_header, ContainerHeader,
    SaveType, HEADER_LEN,
};
use vstd::prelude::*;
use vstd::slice::*;

verus! {

/// A decoded save: the tree, and the save type of the container that it
/// came in.
#[derive(Debug, PartialEq)]
pub struct DecodedDocument {
    pub tree: uesave::Save,
    pub save_type: SaveType,
}

/// The payload of a file: what follows the header.
pub open spec fn spec_payload(raw: Seq<u8>) -> Seq<u8> {
    raw.subrange(HEADER_LEN as int, raw.len() as int)
}

/// The save type of a file and the data behind its payload.
pub open spec fn spec_decode_payload(raw: Seq<u8>) -> Result<(SaveType, Seq<u8>), FormatFailure> {
    match spec_parse_header(raw) {
        Err(e) => Err(e),
        Ok(header) => match spec_inflate(
            spec_payload(raw),
            header.save_type,
            header.compressed_len,
        ) {
            Err(e) => Err(e),
            Ok(data) => Ok((header.save_type, data)),
        },
    }
}

/// The document of a container of the given save type, once the codec has
/// read its data: the tree that the codec gave, or a `TreeDecodeFailure`
/// with the codec's message.
pub open spec fn spec_finish_decode(save_type: SaveType, read: Result<uesave::Save, Seq<char>>)
    -> Result<DecodedDocument, FormatFailure> {
    match spec_decode_failure(read) {
        Err(e) => Err(e),
        Ok(tree) => Ok(DecodedDocument { tree, save_type }),
    }
}

/// A result of save type and data with the data and the error taken by
/// their views.
pub open spec fn payload_outcome(r: Result<(SaveType, Vec<u8>), FormatError>) -> Result<
    (SaveType, Seq<u8>),
    FormatFailure,
> {
    match r {
        Ok((save_type, data)) => Ok((save_type, data@)),
        Err(e) => Err(e@),
    }
}

/// Parses the header of a file and decompresses its payload.
pub fn decode_payload(raw: &[u8]) -> (r: Result<(SaveType, Vec<u8>), FormatError>)
    ensures
        payload_outcome(r) == spec_decode_payload(raw@),
{
    let (header, offset) = parse_header(raw)?;
    let payload = slice_subrange(raw, offset, raw.len());
    let data = inflate(payload, header.save_type, header.compressed_len)?;
    Ok((header.save_type, data))
}

/// Makes the document of what the save-tree codec read from the data of a
/// container of the given save type.
pub fn finish_decode(save_type: SaveType, read: Result<uesave::Save, String>) -> (r: Result<
    DecodedDocument,
    FormatError,
>)
    ensures
        outcome(r) == spec_finish_decode(save_type, spec_raw(read)),
{
    let tree = decode_failure(read)?;
    Ok(DecodedDocument { tree, save_type })
}

/// The header of a container whose payload is one zlib stream: it declares
/// the length of the data and the length of the stream. Lengths that no
/// header can declare are a `LengthMismatch`.
pub open spec fn spec_single_pass_header(data_len: nat, payload_len: nat) -> Result<
    ContainerHeader,
    FormatFailure,
> {
    if data_len > u32::MAX || payload_len > u32::MAX {
        Err(FormatFailure::LengthMismatch)
    } else {
        Ok(ContainerHeader::spec_new(data_len as u32, payload_len as u32, SaveType::Zlib))
    }
}

/// The file for data: the header, then the data as the save type
/// compresses it.
pub open spec fn spec_encode_payload(data: Seq<u8>, save_type: SaveType) -> Result<
    Seq<u8>,
    FormatFailure,
> {
    match spec_deflate(data, save_type) {
        Err(e) => Err(e),
        Ok(payload) => match spec_single_pass_header(data.len(), payload.len()) {
            Err(e) => Err(e),
            Ok(header) => Ok(header.spec_bytes() + payload),
        },
    }
}

/// The file for what the save-tree codec wrote. A failure of the codec is
/// a `TreeEncodeFailure` with its message. The save type is looked at only
/// then; a byte that names no save type is as unsupported as a save type
/// that is not written.
pub open spec fn spec_finish_encode(written: Result<Seq<u8>, Seq<char>>, save_type: u8) -> Result<
    Seq<u8>,
    FormatFailure,
> {
    match spec_encode_failure(written) {
        Err(e) => Err(e),
        Ok(data) => match SaveType::spec_from_byte(save_type) {
            None => Err(FormatFailure::UnsupportedSaveType),
            Some(save_type) => spec_encode_payload(data, save_type),
        },
    }
}

/// What the codec wrote, with the data and the message taken by their
/// views.
pub open spec fn spec_written(written: Result<Vec<u8>, String>) -> Result<Seq<u8>, Seq<char>> {
    match written {
        Ok(data) => Ok(data@),
        Err(message) => Err(message@),
    }
}

/// Makes the header of a single-pass container from the two lengths.
pub fn single_pass_header(data_len: usize, payload_len: usize) -> (r: Result<
    ContainerHeader,
    FormatError,
>)
    ensures
        outcome(r) == spec_single_pass_header(data_len as nat, payload_len as nat),
        r matches Ok(header) ==> header.wf(),
{
    if data_len as u64 > u32::MAX as u64 || payload_len as u64 > u32::MAX as u64 {
        return Err(FormatError::LengthMismatch);
    }
    Ok(ContainerHeader::new(data_len as u32, payload_len as u32, SaveType::Zlib))
}

/// Puts a header in front of a payload.
pub fn frame(header: &ContainerHeader, payload: &[u8]) -> (file: Vec<u8>)
    ensures
        file@ == header.spec_bytes() + payload@,
{
    let mut file = header.to_bytes();
    file.extend_from_slice(payload);
    file
}

/// Compresses data and frames it as a container of the given save type.
/// What comes out is decoded to the same data again.
pub fn encode_payload(data: &[u8], save_type: SaveType) -> (r: Result<Vec<u8>, FormatError>)
    ensures
        bytes_outcome(r) == spec_encode_payload(data@, save_type),
        r matches Ok(file) ==> spec_decode_payload(file@) == Ok::<
            (SaveType, Seq<u8>),
            FormatFailure,
        >((SaveType::Zlib, data@)),
{
    let payload = deflate(data, save_type)?;
    let header = single_pass_header(data.len(), payload.len())?;
    let file = frame(&header, payload.as_slice());
    proof {
        lemma_parse_header_of_bytes(header, payload@);
    }
    Ok(file)
}

/// Makes the file of what the save-tree codec wrote for a tree.
/// `save_type` is the byte that the header is to hold. The file that comes
/// out passes every check of decoding and holds the data that was written.
pub fn finish_encode(written: Result<Vec<u8>, String>, save_type: u8) -> (r: Result<
    Vec<u8>,
    FormatError,
>)
    ensures
        bytes_outcome(r) == spec_finish_encode(spec_written(written), save_type),
        r matches Ok(file) ==> written is Ok && spec_decode_payload(file@) == Ok::<
            (SaveType, Seq<u8>),
            FormatFailure,
        >((SaveType::Zlib, written->Ok_0@)),
{
    let data = encode_failure(written)?;
    match SaveType::from_byte(save_type) {
        Some(save_type) => encode_payload(data.as_slice(), save_type),
        None => Err(FormatError::UnsupportedSaveType),
    }
}

/// A file of fewer than twelve bytes is truncated, whatever it holds.
pub proof fn lemma_truncated(raw: Seq<u8>)
    requires
        raw.len() < HEADER_LEN,
    ensures
        spec_parse_header(raw) == Err::<ContainerHeader, FormatFailure>(FormatFailure::Truncated),
        spec_decode_payload(raw) == Err::<(SaveType, Seq<u8>), FormatFailure>(
            FormatFailure::Truncated,
        ),
{
}

/// A file of twelve bytes or more in which one of the bytes 8, 9 and 10 is
/// not that of `PlZ` has a bad magic, whatever else it holds.
pub proof fn lemma_bad_magic(raw: Seq<u8>)
    requires
        raw.len() >= HEADER_LEN,
        raw[8] != magic()[0] || raw[9] != magic()[1] || raw[10] != magic()[2],
    ensures
        spec_parse_header(raw) == Err::<ContainerHeader, FormatFailure>(FormatFailure::BadMagic),
        spec_decode_payload(raw) == Err::<(SaveType, Seq<u8>), FormatFailure>(
            FormatFailure::BadMagic,
        ),
{
    assert(raw.subrange(8, 11)[0] == raw[8]);
    assert(raw.subrange(8, 11)[1] == raw[9]);
    assert(raw.subrange(8, 11)[2] == raw[10]);
}

/// A file with the magic whose byte 11 is none of `0x30`, `0x31` and `0x32`
/// has an unknown save type.
pub proof fn lemma_unknown_save_type(raw: Seq<u8>)
    requires
        raw.len() >= HEADER_LEN,
        raw.subrange(8, 11) == magic(),
        raw[11] != 0x30 && raw[11] != 0x31 && raw[11] != 0x32,
    ensures
        spec_parse_header(raw) == Err::<ContainerHeader, FormatFailure>(
            FormatFailure::UnknownSaveType,
        ),
        spec_decode_payload(raw) == Err::<(SaveType, Seq<u8>), FormatFailure>(
            FormatFailure::UnknownSaveType,
        ),
{
}

/// A single-pass container is refused with `LengthMismatch` exactly when
/// its header's compressed length is not the number of bytes behind the
/// header. Where the two agree, its data is what one inflate pass over the
/// payload gives, and there is data exactly when that pass succeeds.
pub proof fn lemma_single_pass_length(raw: Seq<u8>)
    requires
        spec_parse_header(raw) is Ok,
        spec_parse_header(raw)->Ok_0.save_type == SaveType::Zlib,
    ensures
        spec_parse_header(raw)->Ok_0.compressed_len != raw.len() - HEADER_LEN
            <==> spec_decode_payload(raw) == Err::<(SaveType, Seq<u8>), FormatFailure>(
            FormatFailure::LengthMismatch,
        ),
        spec_parse_header(raw)->Ok_0.compressed_len == raw.len() - HEADER_LEN
            ==> spec_decode_payload(raw) == (match spec_pass_outcome(
            zlib_inflated(spec_payload(raw)),
        ) {
            Err(e) => Err(e),
            Ok(data) => Ok((SaveType::Zlib, data)),
        }),
        spec_decode_payload(raw) is Ok <==> {
            &&& spec_parse_header(raw)->Ok_0.compressed_len == raw.len() - HEADER_LEN
            &&& zlib_inflated(spec_payload(raw)) is Ok
        },
{
}

/// In a double-pass container the first inflate pass must give as many
/// bytes as the header's compressed length says: if it gives another
/// number, the file is refused with `LengthMismatch`; if it gives that
/// number, the data is the whole of what the second pass gives.
pub proof fn lemma_double_pass_length(raw: Seq<u8>)
    requires
        spec_parse_header(raw) is Ok,
        spec_parse_header(raw)->Ok_0.save_type == SaveType::DoubleZlib,
        zlib_inflated(spec_payload(raw)) is Ok,
    ensures
        zlib_inflated(spec_payload(raw))->Ok_0.len() != spec_parse_header(
            raw,
        )->Ok_0.compressed_len <==> spec_decode_payload(raw) == Err::<
            (SaveType, Seq<u8>),
            FormatFailure,
        >(FormatFailure::LengthMismatch),
        zlib_inflated(spec_payload(raw))->Ok_0.len() == spec_parse_header(
            raw,
        )->Ok_0.compressed_len ==> spec_decode_payload(raw) == (match spec_pass_outcome(
            zlib_inflated(zlib_inflated(spec_payload(raw))->Ok_0),
        ) {
            Err(e) => Err(e),
            Ok(data) => Ok((SaveType::DoubleZlib, data)),
        }),
{
}

/// Data that is encoded as a single-pass container and decoded again is
/// the same data, where zlib inflates what it deflated to the same data.
/// A tree that was written as that data is therefore read back from the
/// same bytes that the codec wrote for it.
pub proof fn lemma_decode_of_encode(data: Seq<u8>, file: Seq<u8>)
    requires
        spec_encode_payload(data, SaveType::Zlib) == Ok::<Seq<u8>, FormatFailure>(file),
        zlib_inflated(zlib_deflated(data)->Ok_0) == Ok::<Seq<u8>, Seq<char>>(data),
    ensures
        spec_decode_payload(file) == Ok::<(SaveType, Seq<u8>), FormatFailure>(
            (SaveType::Zlib, data),
        ),
{
    let payload = zlib_deflated(data)->Ok_0;
    let header = spec_single_pass_header(data.len(), payload.len())->Ok_0;
    lemma_parse_header_of_bytes(header, payload);
}

} // verus!
