//! Writing pcap files.
//!
//! Both writers emit into a byte vector that `finish` hands back. The
//! seekable writer may enlarge the snap length and rewrite the file header
//! in place at the end; the seekless one refuses a packet longer than the
//! snap length instead.
use vstd::prelude::*;

use crate::pcap::file_header::{file_header_bytes, PcapFileHeader};
use crate::pcap::packet_header::{packet_header_bytes, PacketHeader, PacketTimestamp};
use crate::stream::{append_slice, IoError};

verus! {

/// What a caller gives for a packet to be written; the included length is
/// the length of the content.
#[derive(Debug, Clone, Copy, PartialEq, Eq, Structural, Default)]
pub struct NewPacketHeader {
    pub timestamp: PacketTimestamp,
    /// The original length of the packet; the content length where `None`.
    pub orig_len: Option<u32>,
}

/// The packet header written for `content_len` bytes of content.
pub open spec fn header_for(h: NewPacketHeader, content_len: u32) -> PacketHeader {
    PacketHeader {
        timestamp: h.timestamp,
        include_len: content_len,
        orig_len: match h.orig_len {
            Some(l) => l,
            None => content_len,
        },
    }
}

/// The bytes of one packet record: its header, then its content.
pub open spec fn packet_record_bytes(
    file: PcapFileHeader,
    h: NewPacketHeader,
    content: Seq<u8>,
) -> Seq<u8> {
    packet_header_bytes(
        header_for(h, content.len() as u32),
        file.magic_number_and_endianness.endianness,
        file.version,
    ) + content
}

fn packet_header_for(header: NewPacketHeader, content_len: u32) -> (r: PacketHeader)
    ensures
        r == header_for(header, content_len),
{
    PacketHeader {
        timestamp: header.timestamp,
        include_len: content_len,
        orig_len: match header.orig_len {
            Some(l) => l,
            None => content_len,
        },
    }
}

/// A pcap writer whose sink can be rewritten at the header.
///
/// A packet longer than the declared snap length enlarges it, and `finish`
/// then writes the file header again with the largest length seen.
pub struct SyncPcapWriter {
    target: Vec<u8>,
    header_offset: usize,
    header: PcapFileHeader,
    requires_header_rewrite: bool,
}

/// `s` with the 24 bytes at `off` replaced by `h`.
pub open spec fn overwrite(s: Seq<u8>, off: int, h: Seq<u8>) -> Seq<u8> {
    s.take(off) + h + s.skip(off + h.len())
}

impl SyncPcapWriter {
    /// The header that was first written lies inside what was written.
    pub closed spec fn wf(&self) -> bool {
        self.header_offset + 24 <= self.target@.len()
    }

    /// The bytes written so far, the header as first written included.
    pub closed spec fn written(&self) -> Seq<u8> {
        self.target@
    }

    /// Where the file header starts in the sink.
    pub closed spec fn header_offset(&self) -> int {
        self.header_offset as int
    }

    /// The file header as it stands now.
    pub closed spec fn header(&self) -> PcapFileHeader {
        self.header
    }

    /// Whether a packet longer than the first snap length was written.
    pub closed spec fn needs_rewrite(&self) -> bool {
        self.requires_header_rewrite
    }

    /// Writes `header` after what `target` holds.
    pub fn new(target: Vec<u8>, header: PcapFileHeader) -> (r: Result<Self, IoError>)
        requires
            target@.len() + 24 <= usize::MAX,
        ensures
            r matches Ok(w) && w.wf() && w.written() == target@ + file_header_bytes(header)
                && w.header() == header && !w.needs_rewrite() && w.header_offset()
                == target@.len(),
    {
        let mut target = target;
        let header_offset = target.len();
        header.write(&mut target);
        proof {
            crate::pcap::file_header::lemma_file_header_round_trip(header, Seq::empty());
        }
        Ok(Self { target, header_offset, header, requires_header_rewrite: false })
    }

    /// Writes one packet. Where the content is longer than the snap length,
    /// the snap length becomes the content length and the header is marked
    /// for rewriting.
    pub fn write_header(&mut self, header: NewPacketHeader, content: &[u8]) -> (r: Result<
        (),
        IoError,
    >)
        requires
            old(self).wf(),
            content@.len() <= u32::MAX,
        ensures
            r is Ok,
            final(self).wf(),
            final(self).written() == old(self).written() + packet_record_bytes(
                old(self).header(),
                header,
                content@,
            ),
            final(self).header_offset() == old(self).header_offset(),
            content@.len() > old(self).header().snap_length ==> final(self).header() == (
            PcapFileHeader { snap_length: content@.len() as u32, ..old(self).header() })
                && final(self).needs_rewrite(),
            content@.len() <= old(self).header().snap_length ==> final(self).header() == old(
                self,
            ).header() && final(self).needs_rewrite() == old(self).needs_rewrite(),
    {
        let new_header = packet_header_for(header, content.len() as u32);
        if new_header.include_len > self.header.snap_length {
            self.requires_header_rewrite = true;
            self.header.snap_length = new_header.include_len;
        }
        let e = self.header.magic_number_and_endianness.endianness;
        let version = self.header.version;
        new_header.write(&mut self.target, e, &version);
        append_slice(&mut self.target, content);
        Ok(())
    }

    /// Hands the written bytes back, with the file header written again in
    /// its place where a packet enlarged the snap length.
    #[verifier::rlimit(40)]
    pub fn finish(self) -> (r: Result<Vec<u8>, IoError>)
        requires
            self.wf(),
        ensures
            r matches Ok(v) && v@ == if self.needs_rewrite() {
                overwrite(self.written(), self.header_offset(), file_header_bytes(self.header()))
            } else {
                self.written()
            },
    {
        if !self.requires_header_rewrite {
            return Ok(self.target);
        }
        let mut bytes: Vec<u8> = Vec::new();
        self.header.write(&mut bytes);
        proof {
            crate::pcap::file_header::lemma_file_header_round_trip(self.header, Seq::empty());
        }
        let mut target = self.target;
        let off = self.header_offset;
        let len: usize = target.len();
        assert(target@.len() == len);
        let mut i: usize = 0;
        while i < 24
            invariant
                bytes@ == file_header_bytes(self.header),
                bytes@.len() == 24,
                off + 24 <= target@.len() <= usize::MAX,
                target@.len() == self.target@.len(),
                i <= 24,
                forall|k: int|
                    0 <= k < target@.len() ==> #[trigger] target@[k] == if off <= k < off + i {
                        bytes@[k - off]
                    } else {
                        self.target@[k]
                    },
            decreases 24 - i,
        {
            target.set(off + i, bytes[i]);
            i = i + 1;
        }
        assert(target@ =~= overwrite(self.target@, off as int, bytes@));
        Ok(target)
    }
}

/// A pcap writer for a sink that cannot be rewritten: a packet longer than
/// the snap length is refused.
pub struct SeeklessPcapWriter {
    target: Vec<u8>,
    header: PcapFileHeader,
}

impl SeeklessPcapWriter {
    /// The bytes written so far.
    pub closed spec fn written(&self) -> Seq<u8> {
        self.target@
    }

    /// The file header.
    pub closed spec fn header(&self) -> PcapFileHeader {
        self.header
    }

    /// Writes `header` after what `target` holds.
    pub fn new(target: Vec<u8>, header: PcapFileHeader) -> (r: Result<Self, IoError>)
        ensures
            r matches Ok(w) && w.written() == target@ + file_header_bytes(header) && w.header()
                == header,
    {
        let mut target = target;
        header.write(&mut target);
        Ok(Self { target, header })
    }

    /// Writes one packet, or refuses it with `InvalidInput`, writing
    /// nothing, where its content is longer than the snap length.
    pub fn write_header(&mut self, header: NewPacketHeader, content: &[u8]) -> (r: Result<
        (),
        IoError,
    >)
        requires
            content@.len() <= u32::MAX,
        ensures
            final(self).header() == old(self).header(),
            content@.len() > old(self).header().snap_length ==> r == Err::<(), IoError>(
                IoError::InvalidInput,
            ) && final(self).written() == old(self).written(),
            content@.len() <= old(self).header().snap_length ==> r is Ok && final(self).written()
                == old(self).written() + packet_record_bytes(old(self).header(), header, content@),
    {
        let new_header = packet_header_for(header, content.len() as u32);
        if new_header.include_len > self.header.snap_length {
            return Err(IoError::InvalidInput);
        }
        let e = self.header.magic_number_and_endianness.endianness;
        let version = self.header.version;
        new_header.write(&mut self.target, e, &version);
        append_slice(&mut self.target, content);
        Ok(())
    }

    /// Hands the written bytes back.
    pub fn finish(self) -> (r: Result<Vec<u8>, IoError>)
        ensures
            r matches Ok(v) && v@ == self.written(),
    {
        Ok(self.target)
    }
}

} // verus!
