//! The Simple Packet Block: a packet with its original length only.
//!
//! The block has no captured-length field. Its content is the block body
//! between the original length and the footer (block length minus 16);
//! the reader reports the first `min(original length, body size)` bytes of
//! it, so that the padding of an untruncated packet is dropped.
use vstd::prelude::*;

use crate::byte_order::{u32_at, uint32, Endianness};
use crate::pcap_ng::blocks::{
    block_order, declared_length, eof, id_matches, order_for, read_footer, unexpected_id,
    BlockHeader, SIMPLE_PACKET_ID,
};
use crate::pcap_ng::PcapNgParseError;
use crate::stream::{truncated, ByteReader};

verus! {

/// A packet without interface or timestamp.
#[derive(Debug, Clone, PartialEq, Eq)]
pub struct SimplePacket {
    pub block_length: u32,
    /// The length of the packet on the wire.
    pub original_length: u32,
    /// The packet bytes stored in the block.
    pub content: Vec<u8>,
}

/// A Simple Packet Block as a value.
pub ghost struct SimplePacketView {
    pub block_length: u32,
    pub original_length: u32,
    pub content: Seq<u8>,
}

impl View for SimplePacket {
    type V = SimplePacketView;

    open spec fn view(&self) -> SimplePacketView {
        SimplePacketView {
            block_length: self.block_length,
            original_length: self.original_length,
            content: self.content@,
        }
    }
}

/// The smaller of two lengths.
pub open spec fn min_len(a: int, b: int) -> int {
    if a <= b {
        a
    } else {
        b
    }
}

/// Reading the body of a Simple Packet Block from `s`, the bytes after its
/// header.
pub open spec fn read_spb_result(s: Seq<u8>, h: BlockHeader, given: Option<Endianness>) -> Result<
    (SimplePacketView, nat),
    PcapNgParseError,
> {
    if !id_matches(h, SIMPLE_PACKET_ID) {
        Err(unexpected_id(h, SIMPLE_PACKET_ID))
    } else {
        match block_order(h, SIMPLE_PACKET_ID, given) {
            None => Err(
                PcapNgParseError::UndeterminedByteOrder(crate::byte_order::UndertminedByteOrder),
            ),
            Some(e) => {
                let len = declared_length(h, e);
                if len < 16 {
                    Err(PcapNgParseError::MinimumSizeNotMet(16, len as usize))
                } else if s.len() < 4 + (len - 16) + 4 {
                    Err(eof())
                } else {
                    let orig = uint32(s.subrange(0, 4), e);
                    Ok(
                        (
                            SimplePacketView {
                                block_length: len,
                                original_length: orig,
                                content: s.subrange(4, 4 + min_len(orig as int, len - 16)),
                            },
                            (len - 8) as nat,
                        ),
                    )
                }
            },
        }
    }
}

impl SimplePacket {
    /// Reads the block body that follows `header`.
    pub fn read_with_header(
        reader: &mut ByteReader,
        header: &BlockHeader,
        byte_order: Option<Endianness>,
    ) -> (r: Result<Self, PcapNgParseError>)
        ensures
            match read_spb_result(old(reader).rest(), *header, byte_order) {
                Ok((v, n)) => r matches Ok(b) && b@ == v && final(reader).rest() == old(
                    reader).rest().skip(n as int),
                Err(err) => r matches Err(x) && x == err,
            },
    {
        let ghost s = old(reader).rest();
        match header.matches_block_id(SIMPLE_PACKET_ID) {
            Ok(()) => {},
            Err(err) => return Err(err),
        }
        let byte_order = match order_for(header, SIMPLE_PACKET_ID, byte_order) {
            Ok(e) => e,
            Err(err) => return Err(err),
        };
        let block_length = header.block_length_as_u32(byte_order);
        if block_length < 16 {
            return Err(PcapNgParseError::MinimumSizeNotMet(16, block_length as usize));
        }
        let body = (block_length - 16) as usize;
        if reader.remaining() < 4 + body + 4 {
            let _ = reader.read_all();
            return Err(PcapNgParseError::IO(crate::stream::IoError::UnexpectedEof));
        }
        let head = match reader.read_exact(4) {
            Ok(v) => v,
            Err(err) => return Err(PcapNgParseError::IO(err)),
        };
        let original_length = u32_at(head.as_slice(), 0, byte_order);
        assert(head@.subrange(0, 4) =~= s.subrange(0, 4));
        let keep = if (original_length as usize) <= body {
            original_length as usize
        } else {
            body
        };
        let content = match reader.read_exact(body) {
            Ok(v) => truncated(v, keep),
            Err(err) => return Err(PcapNgParseError::IO(err)),
        };
        assert(content@ =~= s.subrange(4, 4 + keep));
        match read_footer(reader) {
            Ok(()) => {},
            Err(err) => return Err(err),
        }
        assert(reader.rest() =~= s.skip(4 + body + 4));
        Ok(Self { block_length, original_length, content })
    }

    /// Reads a whole Simple Packet Block, header included.
    pub fn read(reader: &mut ByteReader, byte_order: Endianness) -> (r: Result<
        Self,
        PcapNgParseError,
    >)
        ensures
            old(reader).rest().len() < 8 ==> r == Err::<Self, PcapNgParseError>(eof()),
            old(reader).rest().len() >= 8 ==> match read_spb_result(
                old(reader).rest().skip(8),
                crate::pcap_ng::blocks::block_header_of(old(reader).rest()),
                Some(byte_order),
            ) {
                Ok((v, n)) => r matches Ok(b) && b@ == v && final(reader).rest() == old(
                    reader).rest().skip(8 + n as int),
                Err(err) => r matches Err(x) && x == err,
            },
    {
        let header = match BlockHeader::read(reader) {
            Ok(h) => h,
            Err(err) => return Err(err),
        };
        let r = Self::read_with_header(reader, &header, Some(byte_order));
        proof {
            assert(old(reader).rest().skip(8).skip(0) =~= old(reader).rest().skip(8));
        }
        r
    }
}

} // verus!
