//! The Interface Description Block: one capture interface of a section.
use vstd::prelude::*;

use crate::byte_order::{u16_at, u32_at, uint16, uint32, Endianness};
use crate::link_type::{link_type_of, InvalidLinkType, LinkType};
use crate::pcap_ng::blocks::{
    block_order, declared_length, eof, id_matches, options_part, order_for, read_footer,
    read_options_part, unexpected_id, BlockHeader, INTERFACE_DESCRIPTION_ID,
};
use crate::pcap_ng::options::{options_view, BlockOptionView, BlockOptions};
use crate::pcap_ng::PcapNgParseError;
use crate::stream::ByteReader;

verus! {

/// An interface that packets of the section were captured on.
#[derive(Debug, Clone, PartialEq, Eq)]
pub struct InterfaceDescriptionBlock {
    pub block_length: u32,
    pub link_type: LinkType,
    pub reserved: [u8; 2],
    /// The most bytes captured of any packet on this interface.
    pub snap_length: u32,
    pub options: Option<BlockOptions>,
}

/// An Interface Description Block as a value.
pub ghost struct InterfaceView {
    pub block_length: u32,
    pub link_type: LinkType,
    pub reserved: [u8; 2],
    pub snap_length: u32,
    pub options: Option<Seq<BlockOptionView>>,
}

impl View for InterfaceDescriptionBlock {
    type V = InterfaceView;

    open spec fn view(&self) -> InterfaceView {
        InterfaceView {
            block_length: self.block_length,
            link_type: self.link_type,
            reserved: self.reserved,
            snap_length: self.snap_length,
            options: options_view(self.options),
        }
    }
}

/// Reading the body of an Interface Description Block from `s`, the bytes
/// after its header: link type, two reserved bytes, snap length, options
/// where the block length leaves room for them, the footer.
pub open spec fn read_idb_result(s: Seq<u8>, h: BlockHeader, given: Option<Endianness>) -> Result<
    (InterfaceView, nat),
    PcapNgParseError,
> {
    if !id_matches(h, INTERFACE_DESCRIPTION_ID) {
        Err(unexpected_id(h, INTERFACE_DESCRIPTION_ID))
    } else {
        match block_order(h, INTERFACE_DESCRIPTION_ID, given) {
            None => Err(
                PcapNgParseError::UndeterminedByteOrder(crate::byte_order::UndertminedByteOrder),
            ),
            Some(e) => {
                let len = declared_length(h, e);
                if len < 20 {
                    Err(PcapNgParseError::MinimumSizeNotMet(20, len as usize))
                } else if s.len() < 8 {
                    Err(eof())
                } else {
                    let lt = uint16(s.subrange(0, 2), e);
                    match link_type_of(lt) {
                        None => Err(PcapNgParseError::InvalidLinkType(InvalidLinkType(lt as u32))),
                        Some(link_type) => match options_part(s.skip(8), len - 20 > 0, e) {
                            Err(err) => Err(err),
                            Ok((opts, n)) => if s.len() < 8 + n + 4 {
                                Err(eof())
                            } else {
                                Ok(
                                    (
                                        InterfaceView {
                                            block_length: len,
                                            link_type,
                                            reserved: [s[2], s[3]],
                                            snap_length: uint32(s.subrange(4, 8), e),
                                            options: opts,
                                        },
                                        (8 + n + 4) as nat,
                                    ),
                                )
                            },
                        },
                    }
                }
            },
        }
    }
}

impl InterfaceDescriptionBlock {
    /// A copy of this block.
    pub fn duplicate(&self) -> (r: Self)
        ensures
            r@ == self@,
    {
        InterfaceDescriptionBlock {
            block_length: self.block_length,
            link_type: self.link_type,
            reserved: self.reserved,
            snap_length: self.snap_length,
            options: crate::pcap_ng::options::duplicate_options(&self.options),
        }
    }

    /// Reads the block body that follows `header`.
    pub fn read_with_header(
        reader: &mut ByteReader,
        header: &BlockHeader,
        byte_order: Option<Endianness>,
    ) -> (r: Result<Self, PcapNgParseError>)
        ensures
            match read_idb_result(old(reader).rest(), *header, byte_order) {
                Ok((v, n)) => r matches Ok(b) && b@ == v && final(reader).rest() == old(
                    reader).rest().skip(n as int),
                Err(err) => r matches Err(x) && x == err,
            },
    {
        let ghost s = old(reader).rest();
        match header.matches_block_id(INTERFACE_DESCRIPTION_ID) {
            Ok(()) => {},
            Err(err) => return Err(err),
        }
        let byte_order = match order_for(header, INTERFACE_DESCRIPTION_ID, byte_order) {
            Ok(e) => e,
            Err(err) => return Err(err),
        };
        let block_length = header.block_length_as_u32(byte_order);
        if block_length < 20 {
            return Err(PcapNgParseError::MinimumSizeNotMet(20, block_length as usize));
        }
        let fields = match reader.read_exact(8) {
            Ok(v) => v,
            Err(err) => return Err(PcapNgParseError::IO(err)),
        };
        let f = fields.as_slice();
        assert(f@.subrange(0, 2) =~= s.subrange(0, 2));
        assert(f@.subrange(4, 8) =~= s.subrange(4, 8));
        let link_type = match LinkType::try_from_u16(u16_at(f, 0, byte_order)) {
            Ok(t) => t,
            Err(err) => return Err(PcapNgParseError::InvalidLinkType(err)),
        };
        let reserved = [f[2], f[3]];
        let snap_length = u32_at(f, 4, byte_order);
        let options = match read_options_part(reader, block_length > 20, byte_order) {
            Ok(o) => o,
            Err(err) => return Err(err),
        };
        let ghost after = reader.rest();
        match read_footer(reader) {
            Ok(()) => {},
            Err(err) => return Err(err),
        }
        proof {
            match options_part(s.skip(8), block_length - 20 > 0, byte_order) {
                Ok((o, n)) => {
                    assert(s.skip(8).skip(n as int) =~= s.skip(8 + n as int));
                    assert(after.skip(4) =~= s.skip(8 + n as int + 4));
                },
                Err(_) => {},
            }
        }
        Ok(Self { block_length, link_type, reserved, snap_length, options })
    }

    /// Reads a whole Interface Description Block, header included.
    pub fn read(reader: &mut ByteReader, byte_order: Endianness) -> (r: Result<
        Self,
        PcapNgParseError,
    >)
        ensures
            old(reader).rest().len() < 8 ==> r == Err::<Self, PcapNgParseError>(eof()),
            old(reader).rest().len() >= 8 ==> match read_idb_result(
                old(reader).rest().skip(8),
                crate::pcap_ng::blocks::block_header_of(old(reader).rest()),
                Some(byte_order),
            ) {
                Ok((v, n)) => r matches Ok(b) && b@ == v && final(reader).rest() == old(
                    reader).rest().skip(8 + n as int),
                Err(err) => r matches Err(x) && x == err,
            },
    {
        let header = match BlockHeader::read(reader) {
            Ok(h) => h,
            Err(err) => return Err(err),
        };
        let r = Self::read_with_header(reader, &header, Some(byte_order));
        proof {
            assert(old(reader).rest().skip(8).skip(0) =~= old(reader).rest().skip(8));
        }
        r
    }
}

} // verus!
