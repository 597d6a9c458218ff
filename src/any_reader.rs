//! A reader for either format, chosen by the magic number at the start of
//! the stream.
use vstd::prelude::*;

use crate::pcap::file_header::{read_file_header_result, PcapFileHeader};
use crate::pcap::packet_header::PacketHeader;
use crate::pcap::reader::{next_packet_result, SyncPcapReader};
use crate::pcap::PcapParseError;
use crate::pcap_ng::blocks::{read_shb_block_result, InterfaceView, SectionHeaderView};
use crate::pcap_ng::options::{options_view, BlockOptionView, BlockOptions};
use crate::pcap_ng::reader::{next_ng_packet, SyncPcapNgReader};
use crate::pcap_ng::PcapNgParseError;
use crate::stream::{ByteReader, IoError, PeakableReader};
use crate::{file_type_of, PcapFileType, Version};

verus! {

/// The header of a packet, from whichever format it was read.
#[derive(Debug, Clone, PartialEq, Eq)]
pub enum AnyPacketHeader {
    /// A pcap packet header.
    Pcap(PacketHeader),
    /// The fields of a pcap-ng Simple Packet Block.
    PcapNgSimple { block_length: u32, original_length: u32 },
    /// The fields of a pcap-ng Enhanced Packet Block.
    PcapNgEnhanced {
        block_length: u32,
        interface_id: u32,
        timestamp_high: u32,
        timestamp_low: u32,
        captured_length: u32,
        original_length: u32,
        options: Option<BlockOptions>,
    },
}

/// A packet header as a value.
pub ghost enum AnyPacketHeaderView {
    Pcap(PacketHeader),
    PcapNgSimple { block_length: u32, original_length: u32 },
    PcapNgEnhanced {
        block_length: u32,
        interface_id: u32,
        timestamp_high: u32,
        timestamp_low: u32,
        captured_length: u32,
        original_length: u32,
        options: Option<Seq<BlockOptionView>>,
    },
}

impl View for AnyPacketHeader {
    type V = AnyPacketHeaderView;

    open spec fn view(&self) -> AnyPacketHeaderView {
        match self {
            AnyPacketHeader::Pcap(h) => AnyPacketHeaderView::Pcap(*h),
            AnyPacketHeader::PcapNgSimple { block_length, original_length } =>
                AnyPacketHeaderView::PcapNgSimple {
                block_length: *block_length,
                original_length: *original_length,
            },
            AnyPacketHeader::PcapNgEnhanced {
                block_length,
                interface_id,
                timestamp_high,
                timestamp_low,
                captured_length,
                original_length,
                options,
            } => AnyPacketHeaderView::PcapNgEnhanced {
                block_length: *block_length,
                interface_id: *interface_id,
                timestamp_high: *timestamp_high,
                timestamp_low: *timestamp_low,
                captured_length: *captured_length,
                original_length: *original_length,
                options: options_view(*options),
            },
        }
    }
}

/// The original length of the packet, whatever its format.
pub open spec fn original_length_of(h: AnyPacketHeaderView) -> u32 {
    match h {
        AnyPacketHeaderView::Pcap(p) => p.orig_len,
        AnyPacketHeaderView::PcapNgSimple { original_length, .. } => original_length,
        AnyPacketHeaderView::PcapNgEnhanced { original_length, .. } => original_length,
    }
}

impl AnyPacketHeader {
    /// The length of the packet as it was on the wire.
    pub fn original_length(&self) -> (r: u32)
        ensures
            r == original_length_of(self@),
    {
        match self {
            AnyPacketHeader::Pcap(header) => header.orig_len,
            AnyPacketHeader::PcapNgSimple { original_length, .. } => *original_length,
            AnyPacketHeader::PcapNgEnhanced { original_length, .. } => *original_length,
        }
    }

    /// The header of a pcap packet.
    pub fn from_pcap(value: PacketHeader) -> (r: Self)
        ensures
            r@ == AnyPacketHeaderView::Pcap(value),
    {
        AnyPacketHeader::Pcap(value)
    }
}

impl From<PacketHeader> for AnyPacketHeader {
    fn from(value: PacketHeader) -> (r: Self) {
        AnyPacketHeader::Pcap(value)
    }
}

impl vstd::std_specs::convert::FromSpecImpl<PacketHeader> for AnyPacketHeader {
    open spec fn obeys_from_spec() -> bool {
        true
    }

    open spec fn from_spec(v: PacketHeader) -> Self {
        AnyPacketHeader::Pcap(v)
    }
}

/// What can go wrong while opening or reading a file of either format.
#[derive(Debug, Clone, Copy, PartialEq, Eq)]
pub enum AnyPcapReaderError {
    /// The stream starts with neither a pcap nor the pcap-ng magic.
    InvalidPcapFormat,
    /// The file is a pcap file and could not be read.
    PcapError(PcapParseError),
    /// The file is a pcap-ng file and could not be read.
    PcapNgError(PcapNgParseError),
    /// The stream ended before the magic number.
    IOError(IoError),
}

/// The bytes of a packet: borrowed from the reader's buffer (pcap), valid
/// until the next read, or owned (pcap-ng).
#[derive(Debug)]
pub enum PacketData<'a> {
    Borrowed(&'a [u8]),
    Owned(Vec<u8>),
}

impl<'a> View for PacketData<'a> {
    type V = Seq<u8>;

    open spec fn view(&self) -> Seq<u8> {
        match self {
            PacketData::Borrowed(s) => s@,
            PacketData::Owned(v) => v@,
        }
    }
}

impl<'a> PacketData<'a> {
    /// The packet bytes.
    pub fn as_slice(&self) -> (r: &[u8])
        ensures
            r@ == self@,
    {
        match self {
            PacketData::Borrowed(s) => s,
            PacketData::Owned(v) => v.as_slice(),
        }
    }
}

#[derive(Debug)]
enum SyncAnyPcapReaderInner {
    Pcap(SyncPcapReader),
    PcapNg(SyncPcapNgReader),
}

/// The outcome of opening a stream as a file of either format: the first
/// four bytes choose the format, whose reader then reads the file header
/// or the first Section Header Block from the start of the stream.
pub open spec fn open_error(s: Seq<u8>) -> Option<AnyPcapReaderError> {
    if s.len() < 4 {
        Some(AnyPcapReaderError::IOError(IoError::UnexpectedEof))
    } else {
        match file_type_of(s) {
            None => Some(AnyPcapReaderError::InvalidPcapFormat),
            Some(PcapFileType::Pcap) => match read_file_header_result(s) {
                Ok(_) => None,
                Err(e) => Some(AnyPcapReaderError::PcapError(e)),
            },
            Some(PcapFileType::PcapNg) => match read_shb_block_result(s) {
                Ok(_) => None,
                Err(e) => Some(AnyPcapReaderError::PcapNgError(e)),
            },
        }
    }
}

impl SyncAnyPcapReaderInner {
    /// Peeks at the first four bytes, and opens the stream as the format
    /// they name.
    fn new(reader: ByteReader) -> (r: Result<Self, AnyPcapReaderError>)
        ensures
            match open_error(reader.rest()) {
                Some(e) => r == Err::<Self, AnyPcapReaderError>(e),
                None => r matches Ok(x) && match x {
                    SyncAnyPcapReaderInner::Pcap(p) => file_type_of(reader.rest()) == Some(
                        PcapFileType::Pcap,
                    ) && read_file_header_result(reader.rest()) == Ok::<
                        PcapFileHeader,
                        PcapParseError,
                    >(p.header()) && p.stream() == reader.rest().skip(24),
                    SyncAnyPcapReaderInner::PcapNg(g) => file_type_of(reader.rest()) == Some(
                        PcapFileType::PcapNg,
                    ) && (read_shb_block_result(reader.rest()) matches Ok((v, n)) && g.section()
                        == v && g.interface_list() == Seq::<InterfaceView>::empty() && g.stream()
                        == reader.rest().skip(n as int)),
                },
            },
    {
        let ghost s = reader.rest();
        let peekable = match PeakableReader::new(reader, 4) {
            Ok(p) => p,
            Err(err) => return Err(AnyPcapReaderError::IOError(err)),
        };
        let first_four_bytes: [u8; 4] = match peekable.peak() {
            Some(peak) => {
                if peak.len() < 4 {
                    return Err(AnyPcapReaderError::IOError(IoError::UnexpectedEof));
                }
                [peak[0], peak[1], peak[2], peak[3]]
            },
            None => return Err(AnyPcapReaderError::IOError(IoError::UnexpectedEof)),
        };
        assert(first_four_bytes@ =~= s.take(4));
        let file_type = match PcapFileType::from_magic(first_four_bytes) {
            Some(t) => t,
            None => return Err(AnyPcapReaderError::InvalidPcapFormat),
        };
        let stream = peekable.into_inner();
        match file_type {
            PcapFileType::Pcap => match SyncPcapReader::new(stream) {
                Ok(r) => Ok(SyncAnyPcapReaderInner::Pcap(r)),
                Err(err) => Err(AnyPcapReaderError::PcapError(err)),
            },
            PcapFileType::PcapNg => match SyncPcapNgReader::new(stream) {
                Ok(r) => Ok(SyncAnyPcapReaderInner::PcapNg(r)),
                Err(err) => Err(AnyPcapReaderError::PcapNgError(err)),
            },
        }
    }
}

/// A reader for files of either format, when only the packets matter.
///
/// The format is chosen by the first four bytes of the stream, which are
/// looked at without being consumed.
#[derive(Debug)]
pub struct SyncAnyPcapReader {
    inner: SyncAnyPcapReaderInner,
}

impl SyncAnyPcapReader {
    /// The format of the file.
    pub closed spec fn kind(&self) -> PcapFileType {
        match self.inner {
            SyncAnyPcapReaderInner::Pcap(_) => PcapFileType::Pcap,
            SyncAnyPcapReaderInner::PcapNg(_) => PcapFileType::PcapNg,
        }
    }

    /// The bytes of the file that have not been read yet.
    pub closed spec fn stream(&self) -> Seq<u8> {
        match self.inner {
            SyncAnyPcapReaderInner::Pcap(p) => p.stream(),
            SyncAnyPcapReaderInner::PcapNg(g) => g.stream(),
        }
    }

    /// The file header, for a pcap file.
    pub closed spec fn pcap_header(&self) -> PcapFileHeader {
        match self.inner {
            SyncAnyPcapReaderInner::Pcap(p) => p.header(),
            SyncAnyPcapReaderInner::PcapNg(_) => arbitrary(),
        }
    }

    /// The current section, for a pcap-ng file.
    pub closed spec fn ng_section(&self) -> SectionHeaderView {
        match self.inner {
            SyncAnyPcapReaderInner::Pcap(_) => arbitrary(),
            SyncAnyPcapReaderInner::PcapNg(g) => g.section(),
        }
    }

    /// The interfaces of the current section, for a pcap-ng file.
    pub closed spec fn ng_interfaces(&self) -> Seq<InterfaceView> {
        match self.inner {
            SyncAnyPcapReaderInner::Pcap(_) => arbitrary(),
            SyncAnyPcapReaderInner::PcapNg(g) => g.interface_list(),
        }
    }

    /// Opens a stream of either format.
    pub fn new(reader: ByteReader) -> (r: Result<Self, AnyPcapReaderError>)
        ensures
            match open_error(reader.rest()) {
                Some(e) => r == Err::<Self, AnyPcapReaderError>(e),
                None => r matches Ok(x) && Some(x.kind()) == file_type_of(reader.rest()) && (
                x.kind() == PcapFileType::Pcap ==> read_file_header_result(reader.rest()) == Ok::<
                    PcapFileHeader,
                    PcapParseError,
                >(x.pcap_header()) && x.stream() == reader.rest().skip(24)) && (x.kind()
                    == PcapFileType::PcapNg ==> (read_shb_block_result(reader.rest()) matches Ok(
                    (v, n),
                ) && x.ng_section() == v && x.ng_interfaces() == Seq::<InterfaceView>::empty()
                    && x.stream() == reader.rest().skip(n as int))),
            },
    {
        match SyncAnyPcapReaderInner::new(reader) {
            Ok(inner) => Ok(Self { inner }),
            Err(err) => Err(err),
        }
    }

    /// Reads the next packet of the file, or `None` at its end.
    pub fn next_packet(&mut self) -> (r: Result<
        Option<(AnyPacketHeader, PacketData<'_>)>,
        AnyPcapReaderError,
    >)
        ensures
            final(self).kind() == old(self).kind(),
            old(self).kind() == PcapFileType::Pcap ==> final(self).pcap_header() == old(
                self).pcap_header() && match next_packet_result(
                old(self).stream(),
                old(self).pcap_header(),
            ) {
                Ok(None) => r matches Ok(None) && final(self).stream() == old(self).stream(),
                Ok(Some((ph, d))) => r matches Ok(Some((h, x))) && h@ == AnyPacketHeaderView::Pcap(
                    ph,
                ) && x@ == d && final(self).stream() == old(self).stream().skip(
                    16 + ph.include_len,
                ),
                Err(e) => r == Err::<Option<(AnyPacketHeader, PacketData<'_>)>, AnyPcapReaderError>(
                    AnyPcapReaderError::PcapError(e),
                ),
            },
            old(self).kind() == PcapFileType::PcapNg ==> match next_ng_packet(
                old(self).stream(),
                old(self).ng_section(),
                old(self).ng_interfaces(),
            ) {
                Ok(None) => r matches Ok(None) && final(self).stream().len() == 0,
                Ok(Some((h, c, n, sec, ifs))) => r matches Ok(Some((x, d))) && x@ == h && d@ == c
                    && final(self).stream() == old(self).stream().skip(n as int) && final(
                    self).ng_section() == sec && final(self).ng_interfaces() == ifs,
                Err(e) => r == Err::<Option<(AnyPacketHeader, PacketData<'_>)>, AnyPcapReaderError>(
                    AnyPcapReaderError::PcapNgError(e),
                ),
            },
    {
        match &mut self.inner {
            SyncAnyPcapReaderInner::Pcap(pcap_reader) => match pcap_reader.next_packet() {
                Ok(Some((header, data))) => Ok(
                    Some((AnyPacketHeader::Pcap(header), PacketData::Borrowed(data))),
                ),
                Ok(None) => Ok(None),
                Err(err) => Err(AnyPcapReaderError::PcapError(err)),
            },
            SyncAnyPcapReaderInner::PcapNg(pcapng_reader) => match pcapng_reader.next_packet() {
                Ok(Some((header, data))) => Ok(Some((header, PacketData::Owned(data)))),
                Ok(None) => Ok(None),
                Err(err) => Err(AnyPcapReaderError::PcapNgError(err)),
            },
        }
    }

    /// The format version: the file header's for a pcap file, the current
    /// section's for a pcap-ng file.
    pub fn version(&self) -> (r: Version)
        ensures
            self.kind() == PcapFileType::Pcap ==> r == self.pcap_header().version,
            self.kind() == PcapFileType::PcapNg ==> r == self.ng_section().version,
    {
        match &self.inner {
            SyncAnyPcapReaderInner::Pcap(p) => *p.version(),
            SyncAnyPcapReaderInner::PcapNg(g) => g.current_section().version,
        }
    }

    /// The format of the file.
    pub fn file_type(&self) -> (r: PcapFileType)
        ensures
            r == self.kind(),
    {
        match &self.inner {
            SyncAnyPcapReaderInner::Pcap(_) => PcapFileType::Pcap,
            SyncAnyPcapReaderInner::PcapNg(_) => PcapFileType::PcapNg,
        }
    }
}

} // verus!
