//! The pcap format: a 24-byte file header, then packets, each a 16-byte
//! header and the bytes that were captured.
use vstd::prelude::*;

pub mod file_header;
pub mod packet_header;
pub mod reader;
pub mod writer;

use crate::byte_order::UnexpectedSize;
use crate::link_type::InvalidLinkType;
use crate::stream::IoError;

verus! {

/// What can go wrong while reading a pcap file.
#[derive(Debug, Clone, Copy, PartialEq, Eq)]
pub enum PcapParseError {
    /// The stream failed or ended inside a header or a packet.
    IO(IoError),
    /// The file does not start with one of the four pcap magic numbers; the
    /// bytes it starts with, where there are four.
    InvalidMagicNumber(Option<[u8; 4]>),
    /// The link type field holds an unknown value.
    InvalidLinkType(InvalidLinkType),
    /// A packet header declares more included bytes than the snap length.
    InvalidPacketLength { snap_length: u32, incl_len: u32 },
    /// The version is not one this library reads.
    InvalidVersion,
    /// A fixed-width field was given the wrong number of bytes.
    UnexpectedSize(UnexpectedSize),
}

} // verus!

verus! {

use crate::pcap::file_header::{file_header_bytes, read_file_header_result, PcapFileHeader};
use crate::pcap::packet_header::{lemma_packet_header_round_trip, packet_header_bytes};
use crate::pcap::reader::next_packet_result;
use crate::pcap::writer::{header_for, packet_record_bytes, NewPacketHeader};

/// The bytes of a pcap file with header `h` and one packet.
pub open spec fn one_packet_file(h: PcapFileHeader, ph: NewPacketHeader, p: Seq<u8>) -> Seq<u8> {
    file_header_bytes(h) + packet_record_bytes(h, ph, p)
}

/// A file written with a header and one packet no longer than the snap
/// length reads back as that header, then that packet, then the end.
pub proof fn lemma_pcap_round_trip(h: PcapFileHeader, ph: NewPacketHeader, p: Seq<u8>)
    requires
        p.len() <= h.snap_length,
    ensures
        read_file_header_result(one_packet_file(h, ph, p)) == Ok::<
            PcapFileHeader,
            PcapParseError,
        >(h),
        next_packet_result(one_packet_file(h, ph, p).skip(24), h) == Ok::<
            Option<(crate::pcap::packet_header::PacketHeader, Seq<u8>)>,
            PcapParseError,
        >(Some((header_for(ph, p.len() as u32), p))),
        one_packet_file(h, ph, p).len() == 24 + 16 + p.len(),
        next_packet_result(one_packet_file(h, ph, p).skip(24 + 16 + p.len() as int), h) == Ok::<
            Option<(crate::pcap::packet_header::PacketHeader, Seq<u8>)>,
            PcapParseError,
        >(None),
{
    let e = h.magic_number_and_endianness.endianness;
    let hdr = header_for(ph, p.len() as u32);
    let rec = packet_record_bytes(h, ph, p);
    let s = one_packet_file(h, ph, p);
    crate::pcap::file_header::lemma_file_header_round_trip(h, rec);
    lemma_packet_header_round_trip(hdr, e, h.version, p);
    assert(s.skip(24) =~= rec);
    assert(rec == packet_header_bytes(hdr, e, h.version) + p);
    assert(rec.subrange(16, 16 + p.len() as int) =~= p);
    assert(s.skip(24 + 16 + p.len() as int) =~= Seq::<u8>::empty());
}

} // verus!
