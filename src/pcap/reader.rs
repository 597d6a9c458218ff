//! Reading the packets of a pcap file one after the other.
use vstd::prelude::*;

use crate::pcap::file_header::{read_file_header_result, PcapFileHeader};
use crate::pcap::packet_header::{packet_header_of, PacketHeader};
use crate::pcap::PcapParseError;
use crate::stream::{ByteReader, IoError};
use crate::Version;

verus! {

/// The outcome of reading the next packet of a pcap file whose header is
/// `h` from the front of `rest`. An empty stream has no more packets; a
/// stream that ends inside a packet header or its bytes is an I/O error; an
/// included length above the snap length is refused before any packet byte
/// is read.
pub open spec fn next_packet_result(rest: Seq<u8>, h: PcapFileHeader) -> Result<
    Option<(PacketHeader, Seq<u8>)>,
    PcapParseError,
> {
    if rest.len() == 0 {
        Ok(None)
    } else if rest.len() < 16 {
        Err(PcapParseError::IO(IoError::UnexpectedEof))
    } else {
        let ph = packet_header_of(
            rest.take(16),
            h.magic_number_and_endianness.endianness,
            h.version,
        );
        if ph.include_len > h.snap_length {
            Err(
                PcapParseError::InvalidPacketLength {
                    snap_length: h.snap_length,
                    incl_len: ph.include_len,
                },
            )
        } else if rest.len() < 16 + ph.include_len {
            Err(PcapParseError::IO(IoError::UnexpectedEof))
        } else {
            Ok(Some((ph, rest.subrange(16, 16 + ph.include_len))))
        }
    }
}

/// Makes `buf` at least `n` bytes long, appending zeros.
fn grow_to(buf: &mut Vec<u8>, n: usize)
    ensures
        final(buf)@.len() >= n,
{
    while buf.len() < n
        decreases n - buf@.len(),
    {
        buf.push(0u8);
    }
}

/// Reads the packets of a pcap file held in a stream.
///
/// The bytes of each packet are copied into one buffer that the reader
/// owns and reuses: the slice that `next_packet` returns is valid until the
/// next call. The buffer grows to the largest included length met, which
/// never exceeds the snap length.
#[derive(Debug)]
pub struct SyncPcapReader {
    reader: ByteReader,
    buffer: Vec<u8>,
    file_header: PcapFileHeader,
}

impl SyncPcapReader {
    /// The bytes of the file that have not been read yet.
    pub closed spec fn stream(&self) -> Seq<u8> {
        self.reader.rest()
    }

    /// The file header.
    pub closed spec fn header(&self) -> PcapFileHeader {
        self.file_header
    }

    /// Reads the file header from the front of the stream and returns a
    /// reader positioned at the first packet.
    pub fn new(reader: ByteReader) -> (r: Result<Self, PcapParseError>)
        ensures
            match read_file_header_result(reader.rest()) {
                Ok(h) => r matches Ok(s) && s.header() == h && s.stream() == reader.rest().skip(
                    24,
                ),
                Err(err) => r matches Err(x) && x == err,
            },
    {
        let mut reader = reader;
        let file_header = match PcapFileHeader::read(&mut reader) {
            Ok(h) => h,
            Err(err) => return Err(err),
        };
        Ok(Self { reader, buffer: Vec::new(), file_header })
    }

    /// A reader over a stream whose file header was read already.
    pub fn new_with_header(reader: ByteReader, file_header: PcapFileHeader) -> (r: Self)
        ensures
            r.header() == file_header,
            r.stream() == reader.rest(),
    {
        Self { reader, buffer: Vec::new(), file_header }
    }

    /// The file header of the pcap file.
    pub fn file_header(&self) -> (r: &PcapFileHeader)
        ensures
            *r == self.header(),
    {
        &self.file_header
    }

    /// The version of the pcap file.
    pub fn version(&self) -> (r: &Version)
        ensures
            *r == self.header().version,
    {
        &self.file_header.version
    }

    /// Reads the next packet: its header and its included bytes, or `None`
    /// at the end of the file.
    pub fn next_packet(&mut self) -> (r: Result<Option<(PacketHeader, &[u8])>, PcapParseError>)
        ensures
            final(self).header() == old(self).header(),
            match next_packet_result(old(self).stream(), old(self).header()) {
                Ok(None) => r matches Ok(None) && final(self).stream() == old(self).stream(),
                Ok(Some((ph, data))) => r matches Ok(Some((p, d))) && p == ph && d@ == data
                    && final(self).stream() == old(self).stream().skip(16 + ph.include_len),
                Err(err) => r matches Err(x) && x == err,
            },
            r matches Err(PcapParseError::InvalidPacketLength { .. }) ==> final(self).stream()
                == old(self).stream().skip(16),
    {
        if self.reader.remaining() == 0 {
            return Ok(None);
        }
        let e = self.file_header.magic_number_and_endianness.endianness;
        let version = self.file_header.version;
        let packet_header = match PacketHeader::read(&mut self.reader, e, &version) {
            Ok(h) => h,
            Err(err) => return Err(err),
        };
        if packet_header.include_len > self.file_header.snap_length {
            return Err(
                PcapParseError::InvalidPacketLength {
                    snap_length: self.file_header.snap_length,
                    incl_len: packet_header.include_len,
                },
            );
        }
        let n = packet_header.include_len as usize;
        grow_to(&mut self.buffer, n);
        match self.reader.read_exact_into(&mut self.buffer, n) {
            Ok(()) => {},
            Err(err) => return Err(PcapParseError::IO(err)),
        }
        let data = &self.buffer.as_slice()[0..n];
        Ok(Some((packet_header, data)))
    }
}

} // verus!
