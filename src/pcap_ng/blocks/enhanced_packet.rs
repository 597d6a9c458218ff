//! The Enhanced Packet Block: a packet with its interface, timestamp and
//! lengths.
use vstd::prelude::*;

use crate::byte_order::{u32_at, uint32, Endianness};
use crate::pcap_ng::blocks::{
    block_order, declared_length, eof, id_matches, options_part, order_for, read_footer,
    read_options_part, unexpected_id, BlockHeader, ENHANCED_PACKET_ID,
};
use crate::pcap_ng::options::{options_view, BlockOptionView, BlockOptions};
use crate::pcap_ng::{padded, padded_u32, PcapNgParseError};
use crate::stream::{truncated, ByteReader};

verus! {

/// A packet with the interface it was captured on and its timestamp.
#[derive(Debug, Clone, PartialEq, Eq)]
pub struct EnhancedPacket {
    pub block_length: u32,
    /// Index of the interface, in order of appearance in the section.
    pub interface_id: u32,
    pub timestamp_high: u32,
    pub timestamp_low: u32,
    /// The number of content bytes stored.
    pub captured_length: u32,
    /// The length of the packet on the wire.
    pub original_length: u32,
    /// The captured bytes, without padding.
    pub content: Vec<u8>,
    pub options: Option<BlockOptions>,
}

/// An Enhanced Packet Block as a value.
pub ghost struct EnhancedPacketView {
    pub block_length: u32,
    pub interface_id: u32,
    pub timestamp_high: u32,
    pub timestamp_low: u32,
    pub captured_length: u32,
    pub original_length: u32,
    pub content: Seq<u8>,
    pub options: Option<Seq<BlockOptionView>>,
}

impl View for EnhancedPacket {
    type V = EnhancedPacketView;

    open spec fn view(&self) -> EnhancedPacketView {
        EnhancedPacketView {
            block_length: self.block_length,
            interface_id: self.interface_id,
            timestamp_high: self.timestamp_high,
            timestamp_low: self.timestamp_low,
            captured_length: self.captured_length,
            original_length: self.original_length,
            content: self.content@,
            options: options_view(self.options),
        }
    }
}

/// The fixed size of the block: header, five fields, footer.
pub open spec fn epb_fixed() -> int {
    32
}

/// Reading the body of an Enhanced Packet Block from `s`, the bytes after
/// its header: five fields, the content padded to four bytes, options where
/// the block length leaves room for them, the footer.
pub open spec fn read_epb_result(s: Seq<u8>, h: BlockHeader, given: Option<Endianness>) -> Result<
    (EnhancedPacketView, nat),
    PcapNgParseError,
> {
    if !id_matches(h, ENHANCED_PACKET_ID) {
        Err(unexpected_id(h, ENHANCED_PACKET_ID))
    } else {
        match block_order(h, ENHANCED_PACKET_ID, given) {
            None => Err(
                PcapNgParseError::UndeterminedByteOrder(crate::byte_order::UndertminedByteOrder),
            ),
            Some(e) => if s.len() < 20 {
                Err(eof())
            } else {
                let captured = uint32(s.subrange(12, 16), e);
                let len = declared_length(h, e);
                let p = padded(captured as int);
                if len < epb_fixed() + p {
                    Err(PcapNgParseError::MinimumSizeNotMet((32 + p) as usize, len as usize))
                } else if s.len() < 20 + p {
                    Err(eof())
                } else {
                    match options_part(s.skip(20 + p), len - epb_fixed() - p > 0, e) {
                        Err(err) => Err(err),
                        Ok((opts, n)) => if s.len() < 20 + p + n + 4 {
                            Err(eof())
                        } else {
                            Ok(
                                (
                                    EnhancedPacketView {
                                        block_length: len,
                                        interface_id: uint32(s.subrange(0, 4), e),
                                        timestamp_high: uint32(s.subrange(4, 8), e),
                                        timestamp_low: uint32(s.subrange(8, 12), e),
                                        captured_length: captured,
                                        original_length: uint32(s.subrange(16, 20), e),
                                        content: s.subrange(20, 20 + captured),
                                        options: opts,
                                    },
                                    (20 + p + n + 4) as nat,
                                ),
                            )
                        },
                    }
                }
            },
        }
    }
}

impl EnhancedPacket {
    /// Reads the block body that follows `header`, in byte order
    /// `byte_order` where given, else in the one that the header's type
    /// encodes.
    #[verifier::rlimit(60)]
    pub fn read_with_header(
        reader: &mut ByteReader,
        header: &BlockHeader,
        byte_order: Option<Endianness>,
    ) -> (r: Result<Self, PcapNgParseError>)
        ensures
            match read_epb_result(old(reader).rest(), *header, byte_order) {
                Ok((v, n)) => r matches Ok(b) && b@ == v && final(reader).rest() == old(
                    reader).rest().skip(n as int),
                Err(err) => r matches Err(x) && x == err,
            },
    {
        let ghost s = old(reader).rest();
        match header.matches_block_id(ENHANCED_PACKET_ID) {
            Ok(()) => {},
            Err(err) => return Err(err),
        }
        let byte_order = match order_for(header, ENHANCED_PACKET_ID, byte_order) {
            Ok(e) => e,
            Err(err) => return Err(err),
        };
        let fields = match reader.read_exact(20) {
            Ok(v) => v,
            Err(err) => return Err(PcapNgParseError::IO(err)),
        };
        let f = fields.as_slice();
        let interface_id = u32_at(f, 0, byte_order);
        let timestamp_high = u32_at(f, 4, byte_order);
        let timestamp_low = u32_at(f, 8, byte_order);
        let captured_length = u32_at(f, 12, byte_order);
        let original_length = u32_at(f, 16, byte_order);
        assert(f@.subrange(0, 4) =~= s.subrange(0, 4));
        assert(f@.subrange(4, 8) =~= s.subrange(4, 8));
        assert(f@.subrange(8, 12) =~= s.subrange(8, 12));
        assert(f@.subrange(12, 16) =~= s.subrange(12, 16));
        assert(f@.subrange(16, 20) =~= s.subrange(16, 20));
        let block_length = header.block_length_as_u32(byte_order);
        let padded_wide = padded_u32(captured_length);
        if (block_length as u64) < 32 + padded_wide {
            return Err(
                PcapNgParseError::MinimumSizeNotMet((32 + padded_wide) as usize, block_length as usize),
            );
        }
        let padded_length = padded_wide as usize;
        let content = match reader.read_exact(padded_length) {
            Ok(v) => truncated(v, captured_length as usize),
            Err(err) => return Err(PcapNgParseError::IO(err)),
        };
        assert(content@ =~= s.subrange(20, 20 + captured_length));
        assert(reader.rest() =~= s.skip(20 + padded_length));
        let options_space = block_length as usize - 32 - padded_length;
        let options = match read_options_part(reader, options_space > 0, byte_order) {
            Ok(o) => o,
            Err(err) => return Err(err),
        };
        let ghost after = reader.rest();
        match read_footer(reader) {
            Ok(()) => {},
            Err(err) => return Err(err),
        }
        proof {
            let p = padded_length as int;
            match options_part(s.skip(20 + p), options_space > 0, byte_order) {
                Ok((o, n)) => {
                    assert(s.skip(20 + p).skip(n as int) =~= s.skip(20 + p + n));
                    assert(after.skip(4) =~= s.skip(20 + p + n + 4));
                },
                Err(_) => {},
            }
        }
        Ok(
            Self {
                block_length,
                interface_id,
                timestamp_high,
                timestamp_low,
                captured_length,
                original_length,
                content,
                options,
            },
        )
    }

    /// Reads a whole Enhanced Packet Block, header included, in byte order
    /// `byte_order`.
    pub fn read(reader: &mut ByteReader, byte_order: Endianness) -> (r: Result<
        Self,
        PcapNgParseError,
    >)
        ensures
            old(reader).rest().len() < 8 ==> r == Err::<Self, PcapNgParseError>(eof()),
            old(reader).rest().len() >= 8 ==> match read_epb_result(
                old(reader).rest().skip(8),
                crate::pcap_ng::blocks::block_header_of(old(reader).rest()),
                Some(byte_order),
            ) {
                Ok((v, n)) => r matches Ok(b) && b@ == v && final(reader).rest() == old(
                    reader).rest().skip(8 + n as int),
                Err(err) => r matches Err(x) && x == err,
            },
    {
        let header = match BlockHeader::read(reader) {
            Ok(h) => h,
            Err(err) => return Err(err),
        };
        let r = Self::read_with_header(reader, &header, Some(byte_order));
        proof {
            assert(old(reader).rest().skip(8).skip(0) =~= old(reader).rest().skip(8));
        }
        r
    }
}

} // verus!
