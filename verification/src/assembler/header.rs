//! The header of a program container.
//!
//! A header is 64 bytes long: five magic bytes, the format version in two
//! bytes, the entry point in four bytes, and zeros up to the full length.
//! Both integers are stored least significant byte first.

use byteorder::{ByteOrder, LittleEndian};
use vstd::prelude::*;
use crate::bytes::{
    le_byte, le_store, le_value, lemma_capacity_of_widths, lemma_le_store_then_value,
    lemma_le_value_of_subrange, lemma_le_value_window,
};

verus! {

/// The bytes that every header starts with.
pub const MAIGC_NUMBER: [u8; 5] = [0x6c, 0x75, 0x78, 0x0d, 0x0a];

/// The length of a header in bytes.
pub const HEADER_LENGTH: usize = 64;

/// The version of the format that this crate writes and reads.
pub const VERSION: u16 = 0;

/// What is wrong with a header.
#[derive(Debug, Clone, Copy, PartialEq, Eq, Structural)]
#[non_exhaustive]
pub enum HeaderErrorKind {
    /// The bytes do not start with the magic number.
    MagicNumber,
    /// The header is of another version of the format.
    OutdatedVersion,
    /// The bytes end within the magic number, the version or the entry
    /// point.
    Truncated,
}

/// The failure to decode a header.
#[derive(Debug, Clone, Copy, PartialEq, Eq, Structural)]
pub struct DecodeHeaderError {
    kind: HeaderErrorKind,
}

impl DecodeHeaderError {
    /// What is wrong with the header.
    pub closed spec fn spec_kind(&self) -> HeaderErrorKind {
        self.kind
    }

    /// What is wrong with the header.
    #[verifier::when_used_as_spec(spec_kind)]
    pub fn kind(&self) -> (kind: HeaderErrorKind)
        ensures
            kind == self.spec_kind(),
    {
        self.kind
    }
}

/// The header of a program container.
#[derive(Debug, Clone, Copy, PartialEq, Eq, Structural)]
pub struct Header {
    /// The version of the format that the header is of.
    pub version: u16,
    /// The offset in the instruction bytes at which execution starts.
    pub entry_point: usize,
}

/// The magic number as a sequence.
pub open spec fn magic() -> Seq<u8> {
    seq![0x6cu8, 0x75u8, 0x78u8, 0x0du8, 0x0au8]
}

/// The 64 bytes that encode `header`. An entry point beyond 32 bits is cut
/// down to its 32 low bits.
pub open spec fn encoding(header: Header) -> Seq<u8> {
    Seq::new(
        HEADER_LENGTH as nat,
        |i: int|
            if i < 5 {
                magic()[i]
            } else if i < 7 {
                le_byte(header.version as nat, (i - 5) as nat)
            } else if i < 11 {
                le_byte(header.entry_point as u32 as nat, (i - 7) as nat)
            } else {
                0u8
            },
    )
}

/// What decoding makes of `bytes`: the header that they start with, or
/// what is wrong with them.
pub open spec fn decoding(bytes: Seq<u8>) -> Result<Header, HeaderErrorKind> {
    if bytes.len() < 5 {
        Err(HeaderErrorKind::Truncated)
    } else if bytes.subrange(0, 5) != magic() {
        Err(HeaderErrorKind::MagicNumber)
    } else if bytes.len() < 7 {
        Err(HeaderErrorKind::Truncated)
    } else if le_value(bytes, 5, 2) != VERSION {
        Err(HeaderErrorKind::OutdatedVersion)
    } else if bytes.len() < 11 {
        Err(HeaderErrorKind::Truncated)
    } else {
        Ok(Header { version: VERSION, entry_point: le_value(bytes, 7, 4) as usize })
    }
}

/// Calls `byteorder::LittleEndian::read_u16`, which reads the first two
/// bytes of `buf` as an integer, least significant byte first, and panics
/// on a shorter `buf`.
#[verifier::external_body]
fn read_u16(buf: &[u8]) -> (value: u16)
    requires
        buf.len() >= 2,
    ensures
        value == le_value(buf@, 0, 2),
{
    LittleEndian::read_u16(buf)
}

/// Calls `byteorder::LittleEndian::read_u32`, which reads the first four
/// bytes of `buf` as an integer, least significant byte first, and panics
/// on a shorter `buf`.
#[verifier::external_body]
fn read_u32(buf: &[u8]) -> (value: u32)
    requires
        buf.len() >= 4,
    ensures
        value == le_value(buf@, 0, 4),
{
    LittleEndian::read_u32(buf)
}

/// Calls `byteorder::LittleEndian::write_u16`, which overwrites the first
/// two bytes of `buf` with `n`, least significant byte first, leaves the
/// rest of `buf` alone, and panics on a shorter `buf`.
#[verifier::external_body]
fn write_u16(buf: &mut Vec<u8>, n: u16)
    requires
        old(buf).len() >= 2,
    ensures
        final(buf)@ == le_store(old(buf)@, 0, 2, n as nat),
{
    LittleEndian::write_u16(buf, n)
}

/// Calls `byteorder::LittleEndian::write_u32`, which overwrites the first
/// four bytes of `buf` with `n`, least significant byte first, leaves the
/// rest of `buf` alone, and panics on a shorter `buf`.
#[verifier::external_body]
fn write_u32(buf: &mut Vec<u8>, n: u32)
    requires
        old(buf).len() >= 4,
    ensures
        final(buf)@ == le_store(old(buf)@, 0, 4, n as nat),
{
    LittleEndian::write_u32(buf, n)
}

impl Default for Header {
    /// The header of the current version with entry point zero.
    fn default() -> (header: Header)
        ensures
            header == Header::initial(),
    {
        Header { version: VERSION, entry_point: 0 }
    }
}

impl Header {
    /// The header of the current version with entry point zero.
    pub open spec fn initial() -> Header {
        Header { version: VERSION, entry_point: 0 }
    }

    /// Decodes the header that `bytes` start with.
    ///
    /// Fails with `Truncated` where `bytes` end before the field that is
    /// being read does, with `MagicNumber` where they do not start with the
    /// magic number, and with `OutdatedVersion` where the version is not
    /// the current one. The fields are read in the order magic number,
    /// version, entry point, and the first failure is returned.
    pub fn decode(bytes: Vec<u8>) -> (result: Result<Header, DecodeHeaderError>)
        ensures
            match decoding(bytes@) {
                Ok(header) => result == Ok::<Header, DecodeHeaderError>(header),
                Err(kind) => result is Err && result.unwrap_err().kind() == kind,
            },
    {
        let mut i: usize = 0;
        if bytes.len() < MAIGC_NUMBER.len() {
            return Err(DecodeHeaderError { kind: HeaderErrorKind::Truncated });
        }
        // Verify the magic number
        while i < MAIGC_NUMBER.len()
            invariant
                i <= 5 <= bytes.len(),
                forall|k: int| 0 <= k < i ==> bytes[k] == magic()[k],
            decreases 5 - i,
        {
            if bytes[i] != MAIGC_NUMBER[i] {
                assert(bytes@.subrange(0, 5)[i as int] != magic()[i as int]);
                return Err(DecodeHeaderError { kind: HeaderErrorKind::MagicNumber });
            }
            i += 1;
        }
        assert(bytes@.subrange(0, 5) =~= magic());

        let mut header = Header::default();

        if bytes.len() < i + 2 {
            return Err(DecodeHeaderError { kind: HeaderErrorKind::Truncated });
        }
        proof {
            lemma_le_value_of_subrange(bytes@, i as int, i + 2, 0, 2);
        }
        header.version = read_u16(vstd::slice::slice_subrange(bytes.as_slice(), i, i + 2));

        if header.version != VERSION {
            return Err(DecodeHeaderError { kind: HeaderErrorKind::OutdatedVersion });
        }
        i += 2;

        if bytes.len() < i + 4 {
            return Err(DecodeHeaderError { kind: HeaderErrorKind::Truncated });
        }
        proof {
            lemma_le_value_of_subrange(bytes@, i as int, i + 4, 0, 4);
        }
        header.entry_point = read_u32(vstd::slice::slice_subrange(bytes.as_slice(), i, i + 4)) as usize;

        Ok(header)
    }

    /// Encodes the header in 64 bytes.
    ///
    /// The entry point is written in four bytes: one beyond 32 bits is cut
    /// down to its 32 low bits.
    pub fn bytes(&mut self) -> (header: Vec<u8>)
        ensures
            *final(self) == *old(self),
            header@ == encoding(*old(self)),
    {
        let mut header: Vec<u8> = Vec::new();

        header.extend_from_slice(&MAIGC_NUMBER);
        assert(header@ =~= magic());

        let mut buf: Vec<u8> = vec![0; 2];
        write_u16(&mut buf, self.version);
        header.append(&mut buf);
        assert(header@.len() == 7);

        buf = vec![0; 4];
        write_u32(&mut buf, #[verifier::truncate] (self.entry_point as u32));
        header.append(&mut buf);

        while header.len() < HEADER_LENGTH
            invariant
                11 <= header.len() <= HEADER_LENGTH,
                forall|k: int| 0 <= k < 11 ==> header[k] == encoding(*self)[k],
                forall|k: int| 11 <= k < header.len() ==> header[k] == 0,
            decreases HEADER_LENGTH - header.len(),
        {
            header.push(0 as u8);
        }
        assert(header@ =~= encoding(*self));
        header
    }
}

/// Decoding what was encoded gives back the header, provided that the
/// header is of the current version and its entry point fits into the four
/// bytes that the format has for it.
pub proof fn lemma_encode_then_decode(header: Header)
    requires
        header.version == VERSION,
        header.entry_point <= u32::MAX,
    ensures
        encoding(header).len() == HEADER_LENGTH,
        decoding(encoding(header)) == Ok::<Header, HeaderErrorKind>(header),
{
    let bytes = encoding(header);
    assert(bytes.subrange(0, 5) =~= magic());
    lemma_capacity_of_widths();
    lemma_le_store_then_value(bytes, 5, 2, header.version as nat);
    lemma_le_value_window(bytes, le_store(bytes, 5, 2, header.version as nat), 5, 2);
    lemma_le_store_then_value(bytes, 7, 4, header.entry_point as nat);
    lemma_le_value_window(bytes, le_store(bytes, 7, 4, header.entry_point as nat), 7, 4);
}

} // verus!
