//! The fixed twelve-byte header of a save container.
//!
//! ```text
//! offset 0  : u32 LE  uncompressed_len
//! offset 4  : u32 LE  compressed_len
//! offset 8  : 3 bytes  magic = "PlZ"
//! offset 11 : u8       save_type
//! offset 12 : ...      payload
//! ```

use crate::error::{FormatError, FormatFailure};
use byteorder::ByteOrder;
use vstd::prelude::*;
use vstd::slice::*;

verus! {

/// Length of the header, and offset of the payload.
pub const HEADER_LEN: usize = 12;

/// The three magic bytes, `PlZ`.
pub open spec fn magic() -> Seq<u8> {
    seq![0x50u8, 0x6Cu8, 0x5Au8]
}

/// How the payload behind the header is compressed.
#[derive(Clone, Copy, Debug, PartialEq, Eq, Structural)]
pub enum SaveType {
    /// `0x30`: the payload is the data itself.
    Stored,
    /// `0x31`: one zlib stream.
    Zlib,
    /// `0x32`: a zlib stream of a zlib stream.
    DoubleZlib,
}

impl SaveType {
    pub open spec fn spec_from_byte(byte: u8) -> Option<SaveType> {
        if byte == 0x30 {
            Some(SaveType::Stored)
        } else if byte == 0x31 {
            Some(SaveType::Zlib)
        } else if byte == 0x32 {
            Some(SaveType::DoubleZlib)
        } else {
            None
        }
    }

    pub open spec fn spec_to_byte(self) -> u8 {
        match self {
            SaveType::Stored => 0x30,
            SaveType::Zlib => 0x31,
            SaveType::DoubleZlib => 0x32,
        }
    }

    /// The save type that a header byte names, if it names one.
    pub fn from_byte(byte: u8) -> (r: Option<SaveType>)
        ensures
            r == Self::spec_from_byte(byte),
    {
        if byte == 0x30 {
            Some(SaveType::Stored)
        } else if byte == 0x31 {
            Some(SaveType::Zlib)
        } else if byte == 0x32 {
            Some(SaveType::DoubleZlib)
        } else {
            None
        }
    }

    /// The header byte of a save type.
    pub fn to_byte(self) -> (byte: u8)
        ensures
            byte == self.spec_to_byte(),
    {
        match self {
            SaveType::Stored => 0x30,
            SaveType::Zlib => 0x31,
            SaveType::DoubleZlib => 0x32,
        }
    }
}

/// The fields of a header whose magic and save type were accepted.
#[derive(Clone, Copy, Debug, PartialEq, Eq)]
pub struct ContainerHeader {
    /// Declared length of the payload after all decompression.
    pub uncompressed_len: u32,
    /// For `Zlib`, the length of the payload as stored; for `DoubleZlib`,
    /// the length of what the first decompression gives.
    pub compressed_len: u32,
    /// Always `PlZ`.
    pub magic: [u8; 3],
    pub save_type: SaveType,
}

impl ContainerHeader {
    /// The invariant of a header: its magic is `PlZ`.
    pub open spec fn wf(self) -> bool {
        self.magic@ == magic()
    }

    /// The twelve bytes that stand for this header in a file.
    pub open spec fn spec_bytes(self) -> Seq<u8> {
        le_bytes(self.uncompressed_len) + le_bytes(self.compressed_len) + self.magic@
            + seq![self.save_type.spec_to_byte()]
    }

    /// The header with the given lengths and save type, and the magic.
    pub open spec fn spec_new(
        uncompressed_len: u32,
        compressed_len: u32,
        save_type: SaveType,
    ) -> ContainerHeader {
        ContainerHeader {
            uncompressed_len,
            compressed_len,
            magic: [0x50u8, 0x6Cu8, 0x5Au8],
            save_type,
        }
    }

    /// The header of a payload with the given lengths.
    pub fn new(uncompressed_len: u32, compressed_len: u32, save_type: SaveType) -> (header:
        ContainerHeader)
        ensures
            header == Self::spec_new(uncompressed_len, compressed_len, save_type),
            header.wf(),
    {
        let header = ContainerHeader {
            uncompressed_len,
            compressed_len,
            magic: [0x50u8, 0x6Cu8, 0x5Au8],
            save_type,
        };
        assert(header.magic@ =~= magic());
        header
    }

    /// The header as it stands in a file.
    pub fn to_bytes(&self) -> (out: Vec<u8>)
        ensures
            out@ == self.spec_bytes(),
            out@.len() == HEADER_LEN,
    {
        let mut out: Vec<u8> = Vec::new();
        push_u32_le(&mut out, self.uncompressed_len);
        push_u32_le(&mut out, self.compressed_len);
        out.push(self.magic[0]);
        out.push(self.magic[1]);
        out.push(self.magic[2]);
        out.push(self.save_type.to_byte());
        assert(out@ =~= self.spec_bytes());
        out
    }
}

/// Appends the four bytes of a number, least significant byte first.
fn push_u32_le(out: &mut Vec<u8>, value: u32)
    ensures
        final(out)@ == old(out)@ + le_bytes(value),
{
    out.push((value % 0x100) as u8);
    out.push(((value / 0x100) % 0x100) as u8);
    out.push(((value / 0x1_0000) % 0x100) as u8);
    out.push(((value / 0x100_0000) % 0x100) as u8);
    assert(out@ =~= old(out)@ + le_bytes(value));
}

/// The number that four bytes stand for, least significant byte first.
pub open spec fn le_u32(bytes: Seq<u8>) -> int
    recommends
        bytes.len() >= 4,
{
    bytes[0] + 0x100 * bytes[1] + 0x1_0000 * bytes[2] + 0x100_0000 * bytes[3]
}

/// The four bytes of a number, least significant byte first.
pub open spec fn le_bytes(value: u32) -> Seq<u8> {
    seq![
        (value % 0x100) as u8,
        ((value / 0x100) % 0x100) as u8,
        ((value / 0x1_0000) % 0x100) as u8,
        ((value / 0x100_0000) % 0x100) as u8,
    ]
}

/// What a file's leading bytes say: the header, or why they are none.
pub open spec fn spec_parse_header(bytes: Seq<u8>) -> Result<ContainerHeader, FormatFailure> {
    if bytes.len() < HEADER_LEN {
        Err(FormatFailure::Truncated)
    } else if bytes.subrange(8, 11) != magic() {
        Err(FormatFailure::BadMagic)
    } else {
        match SaveType::spec_from_byte(bytes[11]) {
            None => Err(FormatFailure::UnknownSaveType),
            Some(save_type) => Ok(
                ContainerHeader::spec_new(
                    le_u32(bytes.subrange(0, 4)) as u32,
                    le_u32(bytes.subrange(4, 8)) as u32,
                    save_type,
                ),
            ),
        }
    }
}

/// `byteorder::ByteOrder::read_u32` of `byteorder::LittleEndian`: the first
/// four bytes of `buf` as a number, least significant byte first. It panics
/// on fewer than four bytes.
#[verifier::external_body]
fn read_u32_le(buf: &[u8]) -> (value: u32)
    requires
        buf@.len() >= 4,
    ensures
        value == le_u32(buf@),
{
    byteorder::LittleEndian::read_u32(buf)
}

/// Four bytes always stand for a number that fits `u32`.
pub proof fn lemma_le_u32_bounds(bytes: Seq<u8>)
    requires
        bytes.len() >= 4,
    ensures
        0 <= le_u32(bytes) <= u32::MAX,
{
}

/// Reading the bytes of a number gives the number back.
pub proof fn lemma_le_u32_of_le_bytes(value: u32)
    ensures
        le_bytes(value).len() == 4,
        le_u32(le_bytes(value)) == value,
{
    let v = value as int;
    let q1 = v / 0x100;
    let q2 = q1 / 0x100;
    let q3 = q2 / 0x100;
    assert(q2 == v / 0x1_0000);
    assert(q3 == v / 0x100_0000);
    assert(q3 < 0x100);
    assert(v == (v % 0x100) + 0x100 * (q1 % 0x100) + 0x1_0000 * (q2 % 0x100) + 0x100_0000 * q3);
}

/// Parses the header at the start of a file. The payload begins at the
/// returned offset.
pub fn parse_header(bytes: &[u8]) -> (r: Result<(ContainerHeader, usize), FormatError>)
    ensures
        match r {
            Ok((header, offset)) => spec_parse_header(bytes@) == Ok::<ContainerHeader, FormatFailure>(header)
                && offset == HEADER_LEN && header.wf(),
            Err(e) => spec_parse_header(bytes@) == Err::<ContainerHeader, FormatFailure>(e@),
        },
{
    if bytes.len() < HEADER_LEN {
        return Err(FormatError::Truncated);
    }
    if bytes[8] != 0x50 || bytes[9] != 0x6C || bytes[10] != 0x5A {
        assert(bytes@.subrange(8, 11)[0] == bytes@[8]);
        assert(bytes@.subrange(8, 11)[1] == bytes@[9]);
        assert(bytes@.subrange(8, 11)[2] == bytes@[10]);
        return Err(FormatError::BadMagic);
    }
    assert(bytes@.subrange(8, 11) =~= magic());
    let save_type = match SaveType::from_byte(bytes[11]) {
        Some(save_type) => save_type,
        None => {
            return Err(FormatError::UnknownSaveType);
        },
    };
    let uncompressed_len = read_u32_le(slice_subrange(bytes, 0, 4));
    let compressed_len = read_u32_le(slice_subrange(bytes, 4, 8));
    Ok((ContainerHeader::new(uncompressed_len, compressed_len, save_type), HEADER_LEN))
}

/// A header written before any payload is read back as itself.
pub proof fn lemma_parse_header_of_bytes(header: ContainerHeader, payload: Seq<u8>)
    requires
        header.wf(),
    ensures
        (header.spec_bytes() + payload).len() == HEADER_LEN + payload.len(),
        (header.spec_bytes() + payload).subrange(HEADER_LEN as int, HEADER_LEN + payload.len())
            == payload,
        spec_parse_header(header.spec_bytes() + payload) == Ok::<ContainerHeader, FormatFailure>(
            header,
        ),
{
    let file = header.spec_bytes() + payload;
    lemma_le_u32_of_le_bytes(header.uncompressed_len);
    lemma_le_u32_of_le_bytes(header.compressed_len);
    assert(file.subrange(0, 4) =~= le_bytes(header.uncompressed_len));
    assert(file.subrange(4, 8) =~= le_bytes(header.compressed_len));
    assert(file.subrange(8, 11) =~= header.magic@);
    assert(file[11] == header.save_type.spec_to_byte());
    assert(file.subrange(HEADER_LEN as int, HEADER_LEN + payload.len()) =~= payload);
    let parsed = spec_parse_header(file)->Ok_0;
    assert(parsed.magic =~= header.magic);
}

} // verus!
