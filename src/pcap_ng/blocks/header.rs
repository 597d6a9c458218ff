//! The Section Header Block, which starts a section and fixes its byte
//! order.
//!
//! Its type reads the same in both byte orders, so the order is taken from
//! the byte-order magic that starts its body, never from a caller.
use vstd::prelude::*;

use crate::byte_order::{u64_at, uint64, Endianness};
use crate::pcap_ng::blocks::{
    declared_length, eof, id_matches, options_part, read_footer, read_options_part,
    unexpected_id, BlockHeader, SECTION_HEADER_ID,
};
use crate::pcap_ng::options::{options_view, BlockOptionView, BlockOptions};
use crate::pcap_ng::{section_order_of, PcapNgParseError};
use crate::stream::ByteReader;
use crate::{version_of, Version};

verus! {

/// The option codes of a Section Header Block.
#[derive(Debug, Clone, Copy, PartialEq, Eq, Structural)]
pub enum SHBOptionCodes {
    /// The hardware the section was written on.
    Hardware,
    /// The operating system the section was written on.
    OS,
    /// The application that wrote the section.
    UserApplication,
}

impl SHBOptionCodes {
    /// The option with code `value`, if any.
    pub fn try_from_u16(value: u16) -> (r: Option<SHBOptionCodes>)
        ensures
            value == 2 ==> r == Some(SHBOptionCodes::Hardware),
            value == 3 ==> r == Some(SHBOptionCodes::OS),
            value == 4 ==> r == Some(SHBOptionCodes::UserApplication),
            !(2 <= value <= 4) ==> r is None,
    {
        match value {
            2 => Some(SHBOptionCodes::Hardware),
            3 => Some(SHBOptionCodes::OS),
            4 => Some(SHBOptionCodes::UserApplication),
            _ => None,
        }
    }
}

/// The header of a section.
#[derive(Debug, Clone, PartialEq, Eq)]
pub struct SectionHeaderBlock {
    pub block_length: u32,
    /// The byte order of every block of the section.
    pub byte_order: Endianness,
    pub version: Version,
    /// The length of the section, `None` where it is stored as all ones.
    pub section_length: Option<u64>,
    pub options: Option<BlockOptions>,
}

/// A Section Header Block as a value.
pub ghost struct SectionHeaderView {
    pub block_length: u32,
    pub byte_order: Endianness,
    pub version: Version,
    pub section_length: Option<u64>,
    pub options: Option<Seq<BlockOptionView>>,
}

impl View for SectionHeaderBlock {
    type V = SectionHeaderView;

    open spec fn view(&self) -> SectionHeaderView {
        SectionHeaderView {
            block_length: self.block_length,
            byte_order: self.byte_order,
            version: self.version,
            section_length: self.section_length,
            options: options_view(self.options),
        }
    }
}

/// Whether eight bytes are all ones.
pub open spec fn all_ones(b: Seq<u8>) -> bool {
    forall|i: int| 0 <= i < 8 ==> b[i] == 0xff
}

/// Reading the body of a Section Header Block from `s`, the bytes after its
/// header: byte-order magic, version, section length, options where the
/// block length leaves room for them, the footer.
pub open spec fn read_shb_result(s: Seq<u8>, h: BlockHeader) -> Result<
    (SectionHeaderView, nat),
    PcapNgParseError,
> {
    if !id_matches(h, SECTION_HEADER_ID) {
        Err(unexpected_id(h, SECTION_HEADER_ID))
    } else if s.len() < 16 {
        Err(eof())
    } else {
        match section_order_of(s) {
            None => Err(PcapNgParseError::InvalidEndianness { got: [s[0], s[1], s[2], s[3]] }),
            Some(e) => {
                let len = declared_length(h, e);
                if len < 28 {
                    Err(PcapNgParseError::MinimumSizeNotMet(28, len as usize))
                } else {
                    match options_part(s.skip(16), len - 28 > 0, e) {
                        Err(err) => Err(err),
                        Ok((opts, n)) => if s.len() < 16 + n + 4 {
                            Err(eof())
                        } else {
                            Ok(
                                (
                                    SectionHeaderView {
                                        block_length: len,
                                        byte_order: e,
                                        version: version_of(s.subrange(4, 8), e),
                                        section_length: if all_ones(s.subrange(8, 16)) {
                                            None
                                        } else {
                                            Some(uint64(s.subrange(8, 16), e))
                                        },
                                        options: opts,
                                    },
                                    (16 + n + 4) as nat,
                                ),
                            )
                        },
                    }
                }
            },
        }
    }
}

/// Reading a whole Section Header Block from the front of `s`.
pub open spec fn read_shb_block_result(s: Seq<u8>) -> Result<(SectionHeaderView, nat), PcapNgParseError> {
    if s.len() < 8 {
        Err(eof())
    } else {
        match read_shb_result(s.skip(8), crate::pcap_ng::blocks::block_header_of(s)) {
            Ok((v, n)) => Ok((v, n + 8)),
            Err(err) => Err(err),
        }
    }
}

fn is_all_ones(b: &[u8]) -> (r: bool)
    requires
        b@.len() == 8,
    ensures
        r == all_ones(b@),
{
    let mut i: usize = 0;
    while i < 8
        invariant
            b@.len() == 8,
            i <= 8,
            forall|k: int| 0 <= k < i ==> b@[k] == 0xff,
        decreases 8 - i,
    {
        if b[i] != 0xff {
            return false;
        }
        i = i + 1;
    }
    true
}

impl SectionHeaderBlock {
    /// A copy of this block.
    pub fn duplicate(&self) -> (r: Self)
        ensures
            r@ == self@,
    {
        SectionHeaderBlock {
            block_length: self.block_length,
            byte_order: self.byte_order,
            version: self.version,
            section_length: self.section_length,
            options: crate::pcap_ng::options::duplicate_options(&self.options),
        }
    }

    /// Reads the block body that follows `header`. The byte order comes
    /// from the block itself; the one given is not used.
    pub fn read_with_header(
        reader: &mut ByteReader,
        header: &BlockHeader,
        _byte_order: Option<Endianness>,
    ) -> (r: Result<Self, PcapNgParseError>)
        ensures
            match read_shb_result(old(reader).rest(), *header) {
                Ok((v, n)) => r matches Ok(b) && b@ == v && final(reader).rest() == old(
                    reader).rest().skip(n as int),
                Err(err) => r matches Err(x) && x == err,
            },
    {
        let ghost s = old(reader).rest();
        match header.matches_block_id(SECTION_HEADER_ID) {
            Ok(()) => {},
            Err(err) => return Err(err),
        }
        let data = match reader.read_exact(16) {
            Ok(v) => v,
            Err(err) => return Err(PcapNgParseError::IO(err)),
        };
        let d = data.as_slice();
        let byte_order = match Endianness::from_pcap_ng_bytes(&[d[0], d[1], d[2], d[3]]) {
            Ok(e) => e,
            Err(err) => return Err(err),
        };
        let block_length = header.block_length_as_u32(byte_order);
        if block_length < 28 {
            return Err(PcapNgParseError::MinimumSizeNotMet(28, block_length as usize));
        }
        let version = crate::Version::parse(&d[4..8], byte_order);
        assert(d@.subrange(4, 8) =~= s.subrange(4, 8));
        let length_bytes = &d[8..16];
        assert(length_bytes@ =~= s.subrange(8, 16));
        let section_length = if is_all_ones(length_bytes) {
            None
        } else {
            Some(u64_at(d, 8, byte_order))
        };
        let options = match read_options_part(reader, block_length > 28, byte_order) {
            Ok(o) => o,
            Err(err) => return Err(err),
        };
        let ghost after = reader.rest();
        match read_footer(reader) {
            Ok(()) => {},
            Err(err) => return Err(err),
        }
        proof {
            match options_part(s.skip(16), block_length - 28 > 0, byte_order) {
                Ok((o, n)) => {
                    assert(s.skip(16).skip(n as int) =~= s.skip(16 + n as int));
                    assert(after.skip(4) =~= s.skip(16 + n as int + 4));
                },
                Err(_) => {},
            }
        }
        Ok(Self { block_length, byte_order, version, section_length, options })
    }

    /// Reads a whole Section Header Block, header included, from the front
    /// of the stream.
    pub fn read_from_reader(reader: &mut ByteReader) -> (r: Result<Self, PcapNgParseError>)
        ensures
            match read_shb_block_result(old(reader).rest()) {
                Ok((v, n)) => r matches Ok(b) && b@ == v && final(reader).rest() == old(
                    reader).rest().skip(n as int),
                Err(err) => r matches Err(x) && x == err,
            },
    {
        let header = match BlockHeader::read(reader) {
            Ok(h) => h,
            Err(err) => return Err(err),
        };
        let r = Self::read_with_header(reader, &header, None);
        proof {
            match read_shb_result(old(reader).rest().skip(8), header) {
                Ok((v, n)) => {
                    assert(old(reader).rest().skip(8).skip(n as int) =~= old(reader).rest().skip(
                        n as int + 8,
                    ));
                },
                Err(_) => {},
            }
        }
        r
    }
}

} // verus!
