//! The 16-byte header in front of each packet of a pcap file.
use vstd::prelude::*;

use chrono::NaiveDateTime;

use crate::byte_order::{bytes32, u32_at, uint32, write_u32, Endianness};
use crate::pcap::file_header::MagicNumber;
use crate::pcap::PcapParseError;
use crate::stream::{ByteReader, IoError};
use crate::{version_before_2_3, Version};

verus! {

/// When a packet was captured.
#[derive(Debug, Clone, Copy, PartialEq, Eq, Structural, Default)]
pub struct PacketTimestamp {
    /// Seconds since the epoch.
    pub seconds: u32,
    /// The sub-second part: microseconds or nanoseconds, as the file's
    /// magic number says.
    pub usec: u32,
}

/// chrono's `NaiveDateTime`, carried through as an opaque value.
#[verifier::external_type_specification]
#[verifier::external_body]
pub struct ExNaiveDateTime(NaiveDateTime);

/// Relies on chrono's `DateTime::from_timestamp`: for seconds in the range
/// of a `u32` the date is always in range, and the result is `None` exactly
/// when the nanoseconds are invalid (two seconds or more, or a leap second
/// that does not end a minute). `naive_utc` only hands out the UTC date and
/// time that the result holds.
#[verifier::external_body]
fn naive_utc_from_timestamp(secs: u32, nsecs: u32) -> (r: Option<NaiveDateTime>)
    ensures
        r is Some <==> (nsecs < 1_000_000_000 || (nsecs < 2_000_000_000 && secs % 60 == 59)),
{
    chrono::DateTime::from_timestamp(secs as i64, nsecs).map(|x| x.naive_utc())
}

/// The nanoseconds of a timestamp at a given resolution, where they fit in
/// a `u32`.
pub open spec fn timestamp_nanos(t: PacketTimestamp, resolution: MagicNumber) -> Option<u32> {
    match resolution {
        MagicNumber::Microsecond => if t.usec * 1000 <= u32::MAX {
            Some((t.usec * 1000) as u32)
        } else {
            None
        },
        MagicNumber::Nanosecond => Some(t.usec),
    }
}

impl PacketTimestamp {
    /// The nanoseconds that the sub-second part stands for at `resolution`,
    /// or `None` where they do not fit in a `u32`.
    pub fn nanos(&self, resolution: MagicNumber) -> (r: Option<u32>)
        ensures
            r == timestamp_nanos(*self, resolution),
    {
        match resolution {
            MagicNumber::Microsecond => self.usec.checked_mul(1000),
            MagicNumber::Nanosecond => Some(self.usec),
        }
    }

    /// The timestamp as a UTC date and time, or `None` where its sub-second
    /// part is out of range.
    pub fn to_chrono_naive_datetime(&self, resolution: MagicNumber) -> (r: Option<NaiveDateTime>)
        ensures
            r is Some <==> (timestamp_nanos(*self, resolution) matches Some(n) && (n
                < 1_000_000_000 || (n < 2_000_000_000 && self.seconds % 60 == 59))),
    {
        match self.nanos(resolution) {
            Some(n) => naive_utc_from_timestamp(self.seconds, n),
            None => None,
        }
    }
}

/// A packet's header: when it was captured, how many of its bytes follow,
/// and how long it was on the wire.
#[derive(Debug, Clone, Copy, PartialEq, Eq, Structural)]
pub struct PacketHeader {
    pub timestamp: PacketTimestamp,
    /// The number of bytes of the packet stored in the file.
    pub include_len: u32,
    /// The length of the packet as it was on the wire.
    pub orig_len: u32,
}

/// The header stored in 16 bytes. Before version 2.3 the third field is the
/// original length and the fourth the included length; from 2.3 on they
/// come the other way round.
pub open spec fn packet_header_of(b: Seq<u8>, e: Endianness, v: Version) -> PacketHeader {
    let third = uint32(b.subrange(8, 12), e);
    let fourth = uint32(b.subrange(12, 16), e);
    PacketHeader {
        timestamp: PacketTimestamp {
            seconds: uint32(b.subrange(0, 4), e),
            usec: uint32(b.subrange(4, 8), e),
        },
        include_len: if version_before_2_3(v) {
            fourth
        } else {
            third
        },
        orig_len: if version_before_2_3(v) {
            third
        } else {
            fourth
        },
    }
}

/// The 16 bytes that store a packet header.
pub open spec fn packet_header_bytes(h: PacketHeader, e: Endianness, v: Version) -> Seq<u8> {
    bytes32(h.timestamp.seconds, e) + bytes32(h.timestamp.usec, e) + if version_before_2_3(v) {
        bytes32(h.orig_len, e) + bytes32(h.include_len, e)
    } else {
        bytes32(h.include_len, e) + bytes32(h.orig_len, e)
    }
}

/// The outcome of reading a packet header from the front of a stream.
pub open spec fn read_packet_header_result(rest: Seq<u8>, e: Endianness, v: Version) -> Result<
    PacketHeader,
    PcapParseError,
> {
    if rest.len() < 16 {
        Err(PcapParseError::IO(IoError::UnexpectedEof))
    } else {
        Ok(packet_header_of(rest.take(16), e, v))
    }
}

impl PacketHeader {
    pub fn new(timestamp: PacketTimestamp, incl_len: u32, orig_len: u32) -> (r: Self)
        ensures
            r == (PacketHeader { timestamp, include_len: incl_len, orig_len }),
    {
        Self { timestamp, include_len: incl_len, orig_len }
    }

    /// Parses the 16 bytes of a packet header of a file of version
    /// `version`.
    pub fn parse_bytes(bytes: &[u8; 16], endianness: Endianness, version: &Version) -> (r: Result<
        Self,
        PcapParseError,
    >)
        ensures
            r == Ok::<PacketHeader, PcapParseError>(packet_header_of(bytes@, endianness, *version)),
    {
        let b: &[u8] = bytes;
        let ts = u32_at(b, 0, endianness);
        let ts_usec = u32_at(b, 4, endianness);
        let third = u32_at(b, 8, endianness);
        let fourth = u32_at(b, 12, endianness);
        let (include_len, orig_len) = if version.is_before_2_3() {
            (fourth, third)
        } else {
            (third, fourth)
        };
        Ok(Self { timestamp: PacketTimestamp { seconds: ts, usec: ts_usec }, include_len, orig_len })
    }

    /// Parses a packet header that stores the included length first, in
    /// big-endian order.
    pub fn parse_be_bytes(bytes: &[u8; 16]) -> (r: Result<Self, PcapParseError>)
        ensures
            r == Ok::<PacketHeader, PcapParseError>(
                packet_header_of(bytes@, Endianness::BigEndian, Version { major: 2, minor: 4 }),
            ),
    {
        Self::parse_bytes(bytes, Endianness::BigEndian, &Version::pcap_version_2_4())
    }

    /// Parses a packet header that stores the included length first, in
    /// little-endian order.
    pub fn parse_le_bytes(bytes: &[u8; 16]) -> (r: Result<Self, PcapParseError>)
        ensures
            r == Ok::<PacketHeader, PcapParseError>(
                packet_header_of(bytes@, Endianness::LittleEndian, Version { major: 2, minor: 4 }),
            ),
    {
        Self::parse_bytes(bytes, Endianness::LittleEndian, &Version::pcap_version_2_4())
    }

    /// Reads a packet header from the front of the stream, consuming its 16
    /// bytes.
    pub fn read(reader: &mut ByteReader, endianness: Endianness, version: &Version) -> (r: Result<
        Self,
        PcapParseError,
    >)
        ensures
            r == read_packet_header_result(old(reader).rest(), endianness, *version),
            old(reader).rest().len() >= 16 ==> final(reader).rest() == old(reader).rest().skip(
                16,
            ),
    {
        let bytes = match reader.read_exact(16) {
            Ok(v) => v,
            Err(err) => return Err(PcapParseError::IO(err)),
        };
        let b = bytes.as_slice();
        let ts = u32_at(b, 0, endianness);
        let ts_usec = u32_at(b, 4, endianness);
        let third = u32_at(b, 8, endianness);
        let fourth = u32_at(b, 12, endianness);
        let (include_len, orig_len) = if version.is_before_2_3() {
            (fourth, third)
        } else {
            (third, fourth)
        };
        Ok(Self { timestamp: PacketTimestamp { seconds: ts, usec: ts_usec }, include_len, orig_len })
    }

    /// Reads a big-endian packet header that stores the included length
    /// first.
    pub fn read_big_endian(reader: &mut ByteReader) -> (r: Result<Self, PcapParseError>)
        ensures
            r == read_packet_header_result(
                old(reader).rest(),
                Endianness::BigEndian,
                Version { major: 2, minor: 4 },
            ),
            old(reader).rest().len() >= 16 ==> final(reader).rest() == old(reader).rest().skip(
                16,
            ),
    {
        Self::read(reader, Endianness::BigEndian, &Version::pcap_version_2_4())
    }

    /// Reads a little-endian packet header that stores the included length
    /// first.
    pub fn read_little_endian(reader: &mut ByteReader) -> (r: Result<Self, PcapParseError>)
        ensures
            r == read_packet_header_result(
                old(reader).rest(),
                Endianness::LittleEndian,
                Version { major: 2, minor: 4 },
            ),
            old(reader).rest().len() >= 16 ==> final(reader).rest() == old(reader).rest().skip(
                16,
            ),
    {
        Self::read(reader, Endianness::LittleEndian, &Version::pcap_version_2_4())
    }

    /// Appends the 16 bytes of this header, in the field order of
    /// `version`, to `writer`.
    pub fn write(&self, writer: &mut Vec<u8>, endianness: Endianness, version: &Version)
        ensures
            final(writer)@ == old(writer)@ + packet_header_bytes(*self, endianness, *version),
    {
        write_u32(writer, self.timestamp.seconds, endianness);
        write_u32(writer, self.timestamp.usec, endianness);
        if version.is_before_2_3() {
            write_u32(writer, self.orig_len, endianness);
            write_u32(writer, self.include_len, endianness);
        } else {
            write_u32(writer, self.include_len, endianness);
            write_u32(writer, self.orig_len, endianness);
        }
        assert(final(writer)@ =~= old(writer)@ + packet_header_bytes(*self, endianness, *version));
    }
}

/// Reading the bytes of a packet header with the version it was written
/// for gives the header back.
pub proof fn lemma_packet_header_round_trip(
    h: PacketHeader,
    e: Endianness,
    v: Version,
    tail: Seq<u8>,
)
    ensures
        packet_header_bytes(h, e, v).len() == 16,
        (packet_header_bytes(h, e, v) + tail).take(16) == packet_header_bytes(h, e, v),
        packet_header_of(packet_header_bytes(h, e, v) + tail, e, v) == h,
{
    let b = packet_header_bytes(h, e, v);
    let s = b + tail;
    crate::byte_order::lemma_uint32_of_bytes32(h.timestamp.seconds, e);
    crate::byte_order::lemma_uint32_of_bytes32(h.timestamp.usec, e);
    crate::byte_order::lemma_uint32_of_bytes32(h.include_len, e);
    crate::byte_order::lemma_uint32_of_bytes32(h.orig_len, e);
    assert(s.take(16) =~= b);
    assert(s.subrange(0, 4) =~= bytes32(h.timestamp.seconds, e));
    assert(s.subrange(4, 8) =~= bytes32(h.timestamp.usec, e));
    if version_before_2_3(v) {
        assert(s.subrange(8, 12) =~= bytes32(h.orig_len, e));
        assert(s.subrange(12, 16) =~= bytes32(h.include_len, e));
    } else {
        assert(s.subrange(8, 12) =~= bytes32(h.include_len, e));
        assert(s.subrange(12, 16) =~= bytes32(h.orig_len, e));
    }
}

/// The third and fourth fields swap meaning at version 2.3: what a file of
/// version 2.2 reads as the original length, one of version 2.4 reads as
/// the included length, and the other way round.
pub proof fn lemma_version_gating(b: Seq<u8>, e: Endianness)
    requires
        b.len() >= 16,
    ensures
        packet_header_of(b, e, Version { major: 2, minor: 2 }).orig_len == packet_header_of(
            b,
            e,
            Version { major: 2, minor: 4 },
        ).include_len,
        packet_header_of(b, e, Version { major: 2, minor: 2 }).include_len == packet_header_of(
            b,
            e,
            Version { major: 2, minor: 4 },
        ).orig_len,
{
}

} // verus!
