//! The pcap file header.
use vstd::prelude::*;

use crate::byte_order::{bytes32, u16_at, u32_at, uint32, write_u32, Endianness};
use crate::link_type::{link_type_of, link_type_value, InvalidLinkType, LinkType};
use crate::pcap::PcapParseError;
use crate::stream::{ByteReader, IoError};
use crate::{version_bytes, version_of, Version};

verus! {

/// The unit of the sub-second part of packet timestamps.
#[derive(Debug, Clone, Copy, PartialEq, Eq, Structural)]
pub enum MagicNumber {
    Microsecond,
    Nanosecond,
}

/// What the magic number of a pcap file says: timestamp resolution and
/// byte order.
#[derive(Debug, Clone, Copy, PartialEq, Eq, Structural)]
pub struct MagicNumberAndEndianness {
    pub magic_number: MagicNumber,
    pub endianness: Endianness,
}

/// Whether `b` starts with the four given bytes.
pub open spec fn starts_with4(b: Seq<u8>, x0: u8, x1: u8, x2: u8, x3: u8) -> bool {
    b.len() >= 4 && b[0] == x0 && b[1] == x1 && b[2] == x2 && b[3] == x3
}

/// The resolution and byte order that the first four bytes of `b` stand
/// for, if they are a pcap magic number.
pub open spec fn magic_of(b: Seq<u8>) -> Option<MagicNumberAndEndianness> {
    if starts_with4(b, 0xa1, 0xb2, 0xc3, 0xd4) {
        Some(
            MagicNumberAndEndianness {
                magic_number: MagicNumber::Microsecond,
                endianness: Endianness::BigEndian,
            },
        )
    } else if starts_with4(b, 0xd4, 0xc3, 0xb2, 0xa1) {
        Some(
            MagicNumberAndEndianness {
                magic_number: MagicNumber::Microsecond,
                endianness: Endianness::LittleEndian,
            },
        )
    } else if starts_with4(b, 0xa1, 0xb2, 0x3c, 0x4d) {
        Some(
            MagicNumberAndEndianness {
                magic_number: MagicNumber::Nanosecond,
                endianness: Endianness::BigEndian,
            },
        )
    } else if starts_with4(b, 0x4d, 0x3c, 0xb2, 0xa1) {
        Some(
            MagicNumberAndEndianness {
                magic_number: MagicNumber::Nanosecond,
                endianness: Endianness::LittleEndian,
            },
        )
    } else {
        None
    }
}

/// The four bytes of a magic number.
pub open spec fn magic_bytes(m: MagicNumberAndEndianness) -> Seq<u8> {
    match (m.magic_number, m.endianness) {
        (MagicNumber::Microsecond, Endianness::BigEndian) => seq![0xa1u8, 0xb2, 0xc3, 0xd4],
        (MagicNumber::Microsecond, Endianness::LittleEndian) => seq![0xd4u8, 0xc3, 0xb2, 0xa1],
        (MagicNumber::Nanosecond, Endianness::BigEndian) => seq![0xa1u8, 0xb2, 0x3c, 0x4d],
        (MagicNumber::Nanosecond, Endianness::LittleEndian) => seq![0x4du8, 0x3c, 0xb2, 0xa1],
    }
}

/// The outcome of reading a magic number from four bytes.
pub open spec fn magic_result(b: Seq<u8>) -> Result<MagicNumberAndEndianness, PcapParseError> {
    match magic_of(b) {
        Some(m) => Ok(m),
        None => Err(PcapParseError::InvalidMagicNumber(Some([b[0], b[1], b[2], b[3]]))),
    }
}

impl MagicNumberAndEndianness {
    /// Reads a magic number; any other four bytes are `InvalidMagicNumber`
    /// carrying them.
    pub fn try_from_bytes(value: [u8; 4]) -> (r: Result<Self, PcapParseError>)
        ensures
            r == magic_result(value@),
    {
        let (a, b, c, d) = (value[0], value[1], value[2], value[3]);
        if a == 0xa1 && b == 0xb2 && c == 0xc3 && d == 0xd4 {
            Ok(
                Self {
                    magic_number: MagicNumber::Microsecond,
                    endianness: Endianness::BigEndian,
                },
            )
        } else if a == 0xd4 && b == 0xc3 && c == 0xb2 && d == 0xa1 {
            Ok(
                Self {
                    magic_number: MagicNumber::Microsecond,
                    endianness: Endianness::LittleEndian,
                },
            )
        } else if a == 0xa1 && b == 0xb2 && c == 0x3c && d == 0x4d {
            Ok(Self { magic_number: MagicNumber::Nanosecond, endianness: Endianness::BigEndian })
        } else if a == 0x4d && b == 0x3c && c == 0xb2 && d == 0xa1 {
            Ok(
                Self {
                    magic_number: MagicNumber::Nanosecond,
                    endianness: Endianness::LittleEndian,
                },
            )
        } else {
            Err(PcapParseError::InvalidMagicNumber(Some([a, b, c, d])))
        }
    }

    /// Reads a magic number from the first four bytes of a slice; a slice
    /// shorter than four bytes is `InvalidMagicNumber(None)`.
    pub fn try_from_slice(value: &[u8]) -> (r: Result<Self, PcapParseError>)
        ensures
            value@.len() < 4 ==> r == Err::<Self, PcapParseError>(
                PcapParseError::InvalidMagicNumber(None),
            ),
            value@.len() >= 4 ==> r == magic_result(value@),
    {
        if value.len() < 4 {
            return Err(PcapParseError::InvalidMagicNumber(None));
        }
        Self::try_from_bytes([value[0], value[1], value[2], value[3]])
    }
}

/// The 24-byte header at the start of a pcap file.
#[derive(Debug, Clone, Copy, PartialEq, Eq, Structural)]
pub struct PcapFileHeader {
    /// Bytes 0..4: timestamp resolution and byte order.
    pub magic_number_and_endianness: MagicNumberAndEndianness,
    /// Bytes 4..8.
    pub version: Version,
    /// Bytes 8..12: offset of local time from UTC.
    pub timezone: u32,
    /// Bytes 12..16: accuracy of timestamps.
    pub sig_figs: u32,
    /// Bytes 16..20: the most bytes captured of any packet.
    pub snap_length: u32,
    /// Bytes 20..24.
    pub link_type: LinkType,
}

/// The 24 bytes that store a file header.
pub open spec fn file_header_bytes(h: PcapFileHeader) -> Seq<u8> {
    let e = h.magic_number_and_endianness.endianness;
    magic_bytes(h.magic_number_and_endianness) + version_bytes(h.version, e) + bytes32(
        h.timezone,
        e,
    ) + bytes32(h.sig_figs, e) + bytes32(h.snap_length, e) + bytes32(
        link_type_value(h.link_type) as u32,
        e,
    )
}

/// The link type stored in a 4-byte field, if it is a known one.
pub open spec fn link_type_of_u32(v: u32) -> Option<LinkType> {
    if v <= u16::MAX {
        link_type_of(v as u16)
    } else {
        None
    }
}

/// The outcome of parsing 24 header bytes: the magic number is checked
/// first, the link type second, and every other field is taken as it is.
pub open spec fn parse_file_header(b: Seq<u8>) -> Result<PcapFileHeader, PcapParseError> {
    match magic_result(b) {
        Err(err) => Err(err),
        Ok(m) => {
            let e = m.endianness;
            let lt = uint32(b.subrange(20, 24), e);
            match link_type_of_u32(lt) {
                None => Err(PcapParseError::InvalidLinkType(InvalidLinkType(lt))),
                Some(link_type) => Ok(
                    PcapFileHeader {
                        magic_number_and_endianness: m,
                        version: version_of(b.subrange(4, 8), e),
                        timezone: uint32(b.subrange(8, 12), e),
                        sig_figs: uint32(b.subrange(12, 16), e),
                        snap_length: uint32(b.subrange(16, 20), e),
                        link_type,
                    },
                ),
            }
        },
    }
}

/// The outcome of reading a file header from the front of a stream.
pub open spec fn read_file_header_result(rest: Seq<u8>) -> Result<PcapFileHeader, PcapParseError> {
    if rest.len() < 24 {
        Err(PcapParseError::IO(IoError::UnexpectedEof))
    } else {
        parse_file_header(rest.take(24))
    }
}

impl PcapFileHeader {
    /// Parses the 24 bytes of a file header.
    pub fn try_from_bytes(bytes: &[u8; 24]) -> (r: Result<Self, PcapParseError>)
        ensures
            r == parse_file_header(bytes@),
    {
        let m = MagicNumberAndEndianness::try_from_bytes([bytes[0], bytes[1], bytes[2], bytes[3]]);
        let magic_number_and_endianness = match m {
            Ok(m) => m,
            Err(err) => return Err(err),
        };
        let e = magic_number_and_endianness.endianness;
        let b: &[u8] = bytes;
        let major = u16_at(b, 4, e);
        let minor = u16_at(b, 6, e);
        assert(b@.subrange(4, 8).subrange(0, 2) =~= b@.subrange(4, 6));
        assert(b@.subrange(4, 8).subrange(2, 4) =~= b@.subrange(6, 8));
        let version = Version { major, minor };
        let timezone = u32_at(b, 8, e);
        let sig_figs = u32_at(b, 12, e);
        let snap_length = u32_at(b, 16, e);
        let link_type = match LinkType::try_from_u32(u32_at(b, 20, e)) {
            Ok(t) => t,
            Err(err) => return Err(PcapParseError::InvalidLinkType(err)),
        };
        Ok(
            PcapFileHeader {
                magic_number_and_endianness,
                version,
                timezone,
                sig_figs,
                snap_length,
                link_type,
            },
        )
    }

    /// Reads the file header from the front of the stream, consuming its 24
    /// bytes.
    pub fn read(reader: &mut ByteReader) -> (r: Result<Self, PcapParseError>)
        ensures
            r == read_file_header_result(old(reader).rest()),
            old(reader).rest().len() >= 24 ==> final(reader).rest() == old(reader).rest().skip(
                24,
            ),
    {
        let bytes = match reader.read_exact(24) {
            Ok(v) => v,
            Err(err) => return Err(PcapParseError::IO(err)),
        };
        let mut header = [0u8; 24];
        let mut i: usize = 0;
        while i < 24
            invariant
                bytes@.len() == 24,
                i <= 24,
                forall|k: int| 0 <= k < i ==> header@[k] == bytes@[k],
            decreases 24 - i,
        {
            header[i] = bytes[i];
            i = i + 1;
        }
        assert(header@ =~= bytes@);
        Self::try_from_bytes(&header)
    }

    /// Appends the 24 bytes of this header to `target`.
    pub fn write(&self, target: &mut Vec<u8>)
        ensures
            final(target)@ == old(target)@ + file_header_bytes(*self),
    {
        let e = self.magic_number_and_endianness.endianness;
        let magic: [u8; 4] = match (self.magic_number_and_endianness.magic_number, e) {
            (MagicNumber::Microsecond, Endianness::BigEndian) => [0xa1, 0xb2, 0xc3, 0xd4],
            (MagicNumber::Microsecond, Endianness::LittleEndian) => [0xd4, 0xc3, 0xb2, 0xa1],
            (MagicNumber::Nanosecond, Endianness::BigEndian) => [0xa1, 0xb2, 0x3c, 0x4d],
            (MagicNumber::Nanosecond, Endianness::LittleEndian) => [0x4d, 0x3c, 0xb2, 0xa1],
        };
        assert(magic@ =~= magic_bytes(self.magic_number_and_endianness));
        target.push(magic[0]);
        target.push(magic[1]);
        target.push(magic[2]);
        target.push(magic[3]);
        self.version.write(target, e);
        write_u32(target, self.timezone, e);
        write_u32(target, self.sig_figs, e);
        write_u32(target, self.snap_length, e);
        write_u32(target, self.link_type.value() as u32, e);
        assert(final(target)@ =~= old(target)@ + file_header_bytes(*self));
    }
}

/// Reading the bytes of a file header gives the header back.
#[verifier::rlimit(60)]
pub proof fn lemma_file_header_round_trip(h: PcapFileHeader, tail: Seq<u8>)
    ensures
        file_header_bytes(h).len() == 24,
        read_file_header_result(file_header_bytes(h) + tail) == Ok::<
            PcapFileHeader,
            PcapParseError,
        >(h),
{
    let e = h.magic_number_and_endianness.endianness;
    let b = file_header_bytes(h);
    let s = b + tail;
    crate::lemma_version_round_trip(h.version, e, Seq::empty());
    crate::byte_order::lemma_uint32_of_bytes32(h.timezone, e);
    crate::byte_order::lemma_uint32_of_bytes32(h.sig_figs, e);
    crate::byte_order::lemma_uint32_of_bytes32(h.snap_length, e);
    crate::byte_order::lemma_uint32_of_bytes32(link_type_value(h.link_type) as u32, e);
    crate::link_type::lemma_link_type_round_trip(h.link_type);
    let t = s.take(24);
    assert(t =~= b);
    assert(t[0] == magic_bytes(h.magic_number_and_endianness)[0]);
    assert(t[1] == magic_bytes(h.magic_number_and_endianness)[1]);
    assert(t[2] == magic_bytes(h.magic_number_and_endianness)[2]);
    assert(t[3] == magic_bytes(h.magic_number_and_endianness)[3]);
    assert(magic_of(t) == Some(h.magic_number_and_endianness));
    assert(magic_result(t) == Ok::<MagicNumberAndEndianness, PcapParseError>(
        h.magic_number_and_endianness,
    ));
    assert(t.subrange(4, 8) =~= version_bytes(h.version, e) + Seq::<u8>::empty());
    assert(t.subrange(8, 12) =~= bytes32(h.timezone, e));
    assert(t.subrange(12, 16) =~= bytes32(h.sig_figs, e));
    assert(t.subrange(16, 20) =~= bytes32(h.snap_length, e));
    assert(t.subrange(20, 24) =~= bytes32(link_type_value(h.link_type) as u32, e));
}

} // verus!
