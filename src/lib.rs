//! A reader and writer of pcap and pcap-ng capture files.
//!
//! The codec is verified: each parser is proved against a spec-level
//! description of the wire format, each writer against the bytes it must
//! emit, and the round trips between them are proved as lemmas.
use vstd::prelude::*;

pub mod any_reader;
pub mod byte_order;
pub mod link_type;
pub mod pcap;
pub mod pcap_ng;
pub mod stream;

use crate::byte_order::{bytes16, u16_at, uint16, write_u16, Endianness};
use crate::pcap::file_header::{magic_of, MagicNumberAndEndianness};
use crate::pcap_ng::{is_pcap_ng_magic, PCAP_NG_MAGIC};

verus! {

/// The two capture formats.
#[derive(Debug, Clone, Copy, PartialEq, Eq, Structural)]
pub enum PcapFileType {
    /// The libpcap format: one file header, then packets.
    Pcap,
    /// The block-structured pcap-ng format.
    PcapNg,
}

/// The format that a file starting with `magic` is in, if any.
pub open spec fn file_type_of(magic: Seq<u8>) -> Option<PcapFileType> {
    if magic_of(magic) is Some {
        Some(PcapFileType::Pcap)
    } else if is_pcap_ng_magic(magic) {
        Some(PcapFileType::PcapNg)
    } else {
        None
    }
}

impl PcapFileType {
    /// Classifies a file by its first four bytes.
    pub fn from_magic(magic: [u8; 4]) -> (r: Option<Self>)
        ensures
            r == file_type_of(magic@),
    {
        if MagicNumberAndEndianness::try_from_bytes(magic).is_ok() {
            Some(PcapFileType::Pcap)
        } else if magic[0] == PCAP_NG_MAGIC[0] && magic[1] == PCAP_NG_MAGIC[1] && magic[2]
            == PCAP_NG_MAGIC[2] && magic[3] == PCAP_NG_MAGIC[3] {
            Some(PcapFileType::PcapNg)
        } else {
            None
        }
    }
}

/// Each of the four pcap magic patterns is a pcap file, the pcap-ng magic is
/// a pcap-ng file, and any other four bytes are neither.
pub proof fn lemma_magic_classification(magic: Seq<u8>)
    requires
        magic.len() == 4,
    ensures
        file_type_of(magic) == Some(PcapFileType::Pcap) <==> (magic == seq![
            0xd4u8,
            0xc3,
            0xb2,
            0xa1,
        ] || magic == seq![0xa1u8, 0xb2, 0xc3, 0xd4] || magic == seq![0x4du8, 0x3c, 0xb2, 0xa1]
            || magic == seq![0xa1u8, 0xb2, 0x3c, 0x4d]),
        file_type_of(magic) == Some(PcapFileType::PcapNg) <==> magic == seq![
            0x0au8,
            0x0d,
            0x0d,
            0x0a,
        ],
{
    assert(magic == seq![magic[0], magic[1], magic[2], magic[3]]);
}

/// A format version: major, then minor.
#[derive(Debug, Clone, Copy, PartialEq, Eq, Structural)]
pub struct Version {
    pub major: u16,
    pub minor: u16,
}

/// Whether `v` comes before 2.3, ordering by major, then minor.
pub open spec fn version_before_2_3(v: Version) -> bool {
    v.major < 2 || (v.major == 2 && v.minor < 3)
}

/// The four bytes that store a version.
pub open spec fn version_bytes(v: Version, e: Endianness) -> Seq<u8> {
    bytes16(v.major, e) + bytes16(v.minor, e)
}

/// The version stored in the first four bytes of `b`.
pub open spec fn version_of(b: Seq<u8>, e: Endianness) -> Version {
    Version { major: uint16(b.subrange(0, 2), e), minor: uint16(b.subrange(2, 4), e) }
}

impl Version {
    /// pcap 2.3: the first version that stores the included length first.
    pub fn pcap_version_2_3() -> (r: Version)
        ensures
            r == (Version { major: 2, minor: 3 }),
    {
        Version { major: 2, minor: 3 }
    }

    /// pcap 2.4, the version that current writers emit.
    pub fn pcap_version_2_4() -> (r: Version)
        ensures
            r == (Version { major: 2, minor: 4 }),
    {
        Version { major: 2, minor: 4 }
    }

    /// Parses the version from the first four bytes of `bytes`.
    pub fn parse(bytes: &[u8], byte_order: Endianness) -> (r: Self)
        requires
            bytes@.len() >= 4,
        ensures
            r == version_of(bytes@, byte_order),
    {
        let major = u16_at(bytes, 0, byte_order);
        let minor = u16_at(bytes, 2, byte_order);
        assert(bytes@.subrange(0, 4).subrange(0, 2) =~= bytes@.subrange(0, 2));
        Version { major, minor }
    }

    /// Appends the four bytes of this version to `target`.
    pub fn write(&self, target: &mut Vec<u8>, byte_order: Endianness)
        ensures
            final(target)@ == old(target)@ + version_bytes(*self, byte_order),
    {
        write_u16(target, self.major, byte_order);
        write_u16(target, self.minor, byte_order);
        assert(final(target)@ =~= old(target)@ + version_bytes(*self, byte_order));
    }

    /// Whether this version comes before 2.3, which stores the original
    /// length of a packet before its included length.
    pub fn is_before_2_3(&self) -> (r: bool)
        ensures
            r == version_before_2_3(*self),
    {
        self.major < 2 || (self.major == 2 && self.minor < 3)
    }
}

/// The version written out and parsed back is the same version.
pub proof fn lemma_version_round_trip(v: Version, e: Endianness, tail: Seq<u8>)
    ensures
        version_of(version_bytes(v, e) + tail, e) == v,
        version_bytes(v, e).len() == 4,
{
    let b = version_bytes(v, e) + tail;
    crate::byte_order::lemma_uint16_of_bytes16(v.major, e);
    crate::byte_order::lemma_uint16_of_bytes16(v.minor, e);
    assert(b.subrange(0, 2) =~= bytes16(v.major, e));
    assert(b.subrange(2, 4) =~= bytes16(v.minor, e));
}

} // verus!
