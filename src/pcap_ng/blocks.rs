//! The blocks of a pcap-ng file.
//!
//! A block is an 8-byte header (type and total length), a body, and a
//! 4-byte footer that repeats the length. Each known block type has its own
//! body layout; any other type is kept as an opaque `GenericBlock`. The
//! `read_*_result` spec functions describe, over the bytes that follow the
//! header, what each reader returns and how many bytes it consumes.
use vstd::prelude::*;

pub mod enhanced_packet;
pub mod header;
pub mod interface;
pub mod name_resolution;
pub mod simple_packet;

pub use enhanced_packet::{read_epb_result, EnhancedPacket, EnhancedPacketView};
pub use header::{
    read_shb_block_result,
    read_shb_result,
    SHBOptionCodes,
    SectionHeaderBlock,
    SectionHeaderView,
};
pub use interface::{read_idb_result, InterfaceDescriptionBlock, InterfaceView};
pub use name_resolution::{
    parse_records,
    read_nrb_result,
    NameResolutionBlock,
    NameResolutionView,
    Record,
    RecordView,
    Records,
};
pub use simple_packet::{read_spb_result, SimplePacket, SimplePacketView};

use crate::byte_order::{bytes32, uint32, ByteOrder, Endianness, UndertminedByteOrder, UnexpectedSize};
use crate::pcap_ng::options::{options_view, parse_options, BlockOptionView, BlockOptions, OptionParseError};
use crate::pcap_ng::PcapNgParseError;
use crate::stream::{ByteReader, IoError};

verus! {

/// The type id of a Section Header Block: the same bytes in both orders.
pub const SECTION_HEADER_ID: u32 = 0x0A0D0D0A;

/// The type id of an Interface Description Block.
pub const INTERFACE_DESCRIPTION_ID: u32 = 1;

/// The type id of a Simple Packet Block.
pub const SIMPLE_PACKET_ID: u32 = 3;

/// The type id of a Name Resolution Block.
pub const NAME_RESOLUTION_ID: u32 = 4;

/// The type id of an Enhanced Packet Block.
pub const ENHANCED_PACKET_ID: u32 = 6;

/// What every block type with a layout of its own declares: its type id,
/// the two encodings of that id, and the smallest total length a block of
/// the type can have.
pub trait Block {
    /// The type id.
    spec fn id() -> u32;

    /// The type id.
    fn block_id() -> (r: u32)
        ensures
            r == Self::id(),
    ;

    /// The type id in little-endian order.
    fn block_id_le() -> (r: [u8; 4])
        ensures
            r@ == bytes32(Self::id(), Endianness::LittleEndian),
    {
        le_id_bytes(Self::block_id())
    }

    /// The type id in big-endian order.
    fn block_id_be() -> (r: [u8; 4])
        ensures
            r@ == bytes32(Self::id(), Endianness::BigEndian),
    {
        be_id_bytes(Self::block_id())
    }

    /// The smallest total length of a block of this type.
    spec fn min_size() -> usize;

    /// The smallest total length of a block of this type.
    fn minimum_size() -> (r: usize)
        ensures
            r == Self::min_size(),
    ;
}

impl Block for SectionHeaderBlock {
    open spec fn id() -> u32 {
        SECTION_HEADER_ID
    }

    fn block_id() -> (r: u32) {
        SECTION_HEADER_ID
    }

    open spec fn min_size() -> usize {
        28
    }

    fn minimum_size() -> (r: usize) {
        28
    }
}

impl Block for InterfaceDescriptionBlock {
    open spec fn id() -> u32 {
        INTERFACE_DESCRIPTION_ID
    }

    fn block_id() -> (r: u32) {
        INTERFACE_DESCRIPTION_ID
    }

    open spec fn min_size() -> usize {
        20
    }

    fn minimum_size() -> (r: usize) {
        20
    }
}

impl Block for SimplePacket {
    open spec fn id() -> u32 {
        SIMPLE_PACKET_ID
    }

    fn block_id() -> (r: u32) {
        SIMPLE_PACKET_ID
    }

    open spec fn min_size() -> usize {
        16
    }

    fn minimum_size() -> (r: usize) {
        16
    }
}

impl Block for NameResolutionBlock {
    open spec fn id() -> u32 {
        NAME_RESOLUTION_ID
    }

    fn block_id() -> (r: u32) {
        NAME_RESOLUTION_ID
    }

    open spec fn min_size() -> usize {
        12
    }

    fn minimum_size() -> (r: usize) {
        12
    }
}

impl Block for EnhancedPacket {
    open spec fn id() -> u32 {
        ENHANCED_PACKET_ID
    }

    fn block_id() -> (r: u32) {
        ENHANCED_PACKET_ID
    }

    open spec fn min_size() -> usize {
        32
    }

    fn minimum_size() -> (r: usize) {
        32
    }
}

/// The 8 bytes in front of every block, kept as raw bytes until the byte
/// order is known.
#[derive(Debug, Clone, Copy, PartialEq, Eq)]
pub struct BlockHeader {
    pub block_id: [u8; 4],
    pub block_length: [u8; 4],
}

/// The four bytes of `id` in order `e`, as an array.
pub open spec fn id_bytes(id: u32, e: Endianness) -> [u8; 4] {
    let b = bytes32(id, e);
    [b[0], b[1], b[2], b[3]]
}

/// Whether the header's type is `id` in either byte order.
pub open spec fn id_matches(h: BlockHeader, id: u32) -> bool {
    h.block_id@ == bytes32(id, Endianness::LittleEndian) || h.block_id@ == bytes32(
        id,
        Endianness::BigEndian,
    )
}

/// The error for a header whose type is not `id`.
pub open spec fn unexpected_id(h: BlockHeader, id: u32) -> PcapNgParseError {
    PcapNgParseError::UnexpectedBlockId {
        expected_le: id_bytes(id, Endianness::LittleEndian),
        expected_be: id_bytes(id, Endianness::BigEndian),
        got: h.block_id,
    }
}

/// The byte order to read a block of type `id` in: the one given, else the
/// one whose encoding of `id` the header holds.
pub open spec fn block_order(h: BlockHeader, id: u32, given: Option<Endianness>) -> Option<
    Endianness,
> {
    match given {
        Some(e) => Some(e),
        None => if h.block_id@ == bytes32(id, Endianness::LittleEndian) {
            Some(Endianness::LittleEndian)
        } else if h.block_id@ == bytes32(id, Endianness::BigEndian) {
            Some(Endianness::BigEndian)
        } else {
            None
        },
    }
}

/// The total length that the header declares.
pub open spec fn declared_length(h: BlockHeader, e: Endianness) -> u32 {
    uint32(h.block_length@, e)
}

/// The header stored in the first 8 bytes of `s`.
pub open spec fn block_header_of(s: Seq<u8>) -> BlockHeader {
    BlockHeader { block_id: [s[0], s[1], s[2], s[3]], block_length: [s[4], s[5], s[6], s[7]] }
}

/// The options part of a block: nothing where the block leaves no room for
/// options, else an options list, `None` where it is empty.
pub open spec fn options_part(s: Seq<u8>, present: bool, e: Endianness) -> Result<
    (Option<Seq<BlockOptionView>>, nat),
    PcapNgParseError,
> {
    if !present {
        Ok((None, 0))
    } else {
        match parse_options(s, e) {
            Some((os, n)) => Ok(
                (
                    if os.len() == 0 {
                        None
                    } else {
                        Some(os)
                    },
                    n,
                ),
            ),
            None => Err(
                PcapNgParseError::OptionParseError(OptionParseError::IO(IoError::UnexpectedEof)),
            ),
        }
    }
}

/// The end-of-stream error.
pub open spec fn eof() -> PcapNgParseError {
    PcapNgParseError::IO(IoError::UnexpectedEof)
}

impl BlockHeader {
    pub fn new(block_id: [u8; 4], block_length: [u8; 4]) -> (r: Self)
        ensures
            r == (BlockHeader { block_id, block_length }),
    {
        Self { block_id, block_length }
    }

    /// The block type in byte order `endianness`.
    pub fn block_id_as_u32<B: ByteOrder>(&self, endianness: B) -> (r: u32)
        ensures
            r == uint32(self.block_id@, endianness.order()),
    {
        endianness.u32_from_bytes(self.block_id)
    }

    /// The total block length in byte order `endianness`.
    pub fn block_length_as_u32<B: ByteOrder>(&self, endianness: B) -> (r: u32)
        ensures
            r == uint32(self.block_length@, endianness.order()),
    {
        endianness.u32_from_bytes(self.block_length)
    }

    /// Reads the 8 header bytes from the front of the stream.
    pub fn read(reader: &mut ByteReader) -> (r: Result<Self, PcapNgParseError>)
        ensures
            old(reader).rest().len() < 8 ==> r == Err::<BlockHeader, PcapNgParseError>(eof()),
            old(reader).rest().len() >= 8 ==> r == Ok::<BlockHeader, PcapNgParseError>(
                block_header_of(old(reader).rest()),
            ) && final(reader).rest() == old(reader).rest().skip(8),
    {
        let b = match reader.read_exact(8) {
            Ok(v) => v,
            Err(err) => return Err(PcapNgParseError::IO(err)),
        };
        Ok(Self::new([b[0], b[1], b[2], b[3]], [b[4], b[5], b[6], b[7]]))
    }

    /// Takes a header from the first 8 bytes of a slice; a shorter slice is
    /// `UnexpectedSize`.
    pub fn parse_from_bytes(bytes: &[u8]) -> (r: Result<Self, PcapNgParseError>)
        ensures
            bytes@.len() < 8 ==> r == Err::<BlockHeader, PcapNgParseError>(
                PcapNgParseError::UnexpectedSize(
                    UnexpectedSize { name: "BlockHeader", expected: 8, got: bytes@.len() as usize },
                ),
            ),
            bytes@.len() >= 8 ==> r == Ok::<BlockHeader, PcapNgParseError>(
                block_header_of(bytes@),
            ),
    {
        if bytes.len() < 8 {
            return Err(
                PcapNgParseError::UnexpectedSize(
                    UnexpectedSize { name: "BlockHeader", expected: 8, got: bytes.len() },
                ),
            );
        }
        Ok(
            Self::new(
                [bytes[0], bytes[1], bytes[2], bytes[3]],
                [bytes[4], bytes[5], bytes[6], bytes[7]],
            ),
        )
    }

    /// Checks that the block type is `id`, in either byte order.
    pub fn matches_block_id(&self, id: u32) -> (r: Result<(), PcapNgParseError>)
        ensures
            id_matches(*self, id) ==> r is Ok,
            !id_matches(*self, id) ==> r == Err::<(), PcapNgParseError>(unexpected_id(*self, id)),
    {
        let le = le_id_bytes(id);
        let be = be_id_bytes(id);
        if same4(&self.block_id, &le) || same4(&self.block_id, &be) {
            Ok(())
        } else {
            assert(self.block_id@ != le@ && self.block_id@ != be@);
            Err(PcapNgParseError::UnexpectedBlockId { expected_le: le, expected_be: be, got: self.block_id })
        }
    }

    /// The byte order whose encoding of `id` the header holds. Not for the
    /// Section Header Block, whose type reads the same in both.
    pub fn endianness_from_block(&self, id: u32) -> (r: Option<Endianness>)
        requires
            id != SECTION_HEADER_ID,
        ensures
            r == block_order(*self, id, None),
    {
        let le = le_id_bytes(id);
        let be = be_id_bytes(id);
        if same4(&self.block_id, &le) {
            Some(Endianness::LittleEndian)
        } else if same4(&self.block_id, &be) {
            Some(Endianness::BigEndian)
        } else {
            None
        }
    }
}

fn le_id_bytes(id: u32) -> (r: [u8; 4])
    ensures
        r@ == bytes32(id, Endianness::LittleEndian),
        r == id_bytes(id, Endianness::LittleEndian),
{
    let a = Endianness::LittleEndian.u32_to_bytes(id);
    [a[0], a[1], a[2], a[3]]
}

fn be_id_bytes(id: u32) -> (r: [u8; 4])
    ensures
        r@ == bytes32(id, Endianness::BigEndian),
        r == id_bytes(id, Endianness::BigEndian),
{
    let a = Endianness::BigEndian.u32_to_bytes(id);
    [a[0], a[1], a[2], a[3]]
}

fn same4(a: &[u8; 4], b: &[u8; 4]) -> (r: bool)
    ensures
        r == (a@ == b@),
{
    let r = a[0] == b[0] && a[1] == b[1] && a[2] == b[2] && a[3] == b[3];
    if r {
        assert(a@ =~= b@);
    }
    r
}

/// The byte order a block reader works in: the one given, else the one
/// inferred from the header.
pub(crate) fn order_for(header: &BlockHeader, id: u32, given: Option<Endianness>) -> (r: Result<
    Endianness,
    PcapNgParseError,
>)
    requires
        id != SECTION_HEADER_ID,
    ensures
        match block_order(*header, id, given) {
            Some(e) => r == Ok::<Endianness, PcapNgParseError>(e),
            None => r == Err::<Endianness, PcapNgParseError>(
                PcapNgParseError::UndeterminedByteOrder(UndertminedByteOrder),
            ),
        },
{
    match given {
        Some(e) => Ok(e),
        None => match header.endianness_from_block(id) {
            Some(e) => Ok(e),
            None => Err(PcapNgParseError::UndeterminedByteOrder(UndertminedByteOrder)),
        },
    }
}

/// Reads the options of a block where `present`, as `options_part` says.
pub(crate) fn read_options_part(reader: &mut ByteReader, present: bool, e: Endianness) -> (r:
    Result<Option<BlockOptions>, PcapNgParseError>)
    ensures
        match options_part(old(reader).rest(), present, e) {
            Ok((o, n)) => r matches Ok(x) && options_view(x) == o && final(reader).rest() == old(
                reader).rest().skip(n as int) && n <= old(reader).rest().len(),
            Err(err) => r matches Err(x) && x == err,
        },
{
    proof {
        crate::pcap_ng::options::lemma_options_fit(old(reader).rest(), e);
    }
    if !present {
        assert(old(reader).rest().skip(0) =~= old(reader).rest());
        return Ok(None);
    }
    match BlockOptions::read_option(reader, e) {
        Ok(o) => Ok(o),
        Err(err) => Err(PcapNgParseError::OptionParseError(err)),
    }
}

/// Reads the 4-byte footer of a block.
pub(crate) fn read_footer(reader: &mut ByteReader) -> (r: Result<(), PcapNgParseError>)
    ensures
        old(reader).rest().len() >= 4 ==> r is Ok && final(reader).rest() == old(reader).rest().skip(
            4,
        ),
        old(reader).rest().len() < 4 ==> r == Err::<(), PcapNgParseError>(eof()),
{
    match reader.read_exact(4) {
        Ok(_) => Ok(()),
        Err(err) => Err(PcapNgParseError::IO(err)),
    }
}

/// A block of a type that has no layout of its own here: its payload is
/// kept as it is.
#[derive(Debug, Clone, PartialEq, Eq)]
pub struct GenericBlock {
    pub block_id: u32,
    /// The total length of the block, header and footer included.
    pub block_length: u32,
    /// The body, where the block has one.
    pub data: Option<Vec<u8>>,
}

/// A generic block as a value.
pub ghost struct GenericBlockView {
    pub block_id: u32,
    pub block_length: u32,
    pub data: Option<Seq<u8>>,
}

impl View for GenericBlock {
    type V = GenericBlockView;

    open spec fn view(&self) -> GenericBlockView {
        GenericBlockView {
            block_id: self.block_id,
            block_length: self.block_length,
            data: match self.data {
                Some(d) => Some(d@),
                None => None,
            },
        }
    }
}

/// Reading the body of a block of any type as an opaque payload from `s`,
/// the bytes after its header.
pub open spec fn read_generic_result(s: Seq<u8>, h: BlockHeader, e: Endianness) -> Result<
    (GenericBlockView, nat),
    PcapNgParseError,
> {
    let len = declared_length(h, e);
    if len < 12 {
        Err(PcapNgParseError::MinimumSizeNotMet(12, len as usize))
    } else if s.len() < len - 8 {
        Err(eof())
    } else {
        Ok(
            (
                GenericBlockView {
                    block_id: uint32(h.block_id@, e),
                    block_length: len,
                    data: if len > 12 {
                        Some(s.subrange(0, len - 12))
                    } else {
                        None
                    },
                },
                (len - 8) as nat,
            ),
        )
    }
}

impl GenericBlock {
    /// A block of type `block_id` with payload `data`; its length counts
    /// the 12 bytes of header and footer.
    pub fn new(block_id: u32, data: Option<Vec<u8>>) -> (r: Self)
        requires
            data matches Some(d) ==> d@.len() + 12 <= u32::MAX,
        ensures
            r.block_id == block_id,
            r.data == data,
            r.block_length == 12 + match data {
                Some(d) => d@.len() as int,
                None => 0,
            },
    {
        let block_length = match &data {
            Some(d) => 12 + d.len() as u32,
            None => 12,
        };
        Self { block_id, block_length, data }
    }

    /// Reads the body that follows `header` as an opaque payload.
    pub fn read_with_header(reader: &mut ByteReader, header: &BlockHeader, byte_order: Endianness) -> (r: Result<
        Self,
        PcapNgParseError,
    >)
        ensures
            match read_generic_result(old(reader).rest(), *header, byte_order) {
                Ok((v, n)) => r matches Ok(b) && b@ == v && final(reader).rest() == old(
                    reader).rest().skip(n as int),
                Err(err) => r matches Err(x) && x == err,
            },
    {
        let ghost s = old(reader).rest();
        let block_length = header.block_length_as_u32(byte_order);
        if block_length < 12 {
            return Err(PcapNgParseError::MinimumSizeNotMet(12, block_length as usize));
        }
        if reader.remaining() < (block_length - 8) as usize {
            let _ = reader.read_all();
            return Err(PcapNgParseError::IO(IoError::UnexpectedEof));
        }
        let data = if block_length > 12 {
            match reader.read_exact((block_length - 12) as usize) {
                Ok(d) => Some(d),
                Err(err) => return Err(PcapNgParseError::IO(err)),
            }
        } else {
            None
        };
        match read_footer(reader) {
            Ok(()) => {},
            Err(err) => return Err(err),
        }
        assert(reader.rest() =~= s.skip(block_length - 8));
        Ok(Self { block_id: header.block_id_as_u32(byte_order), block_length, data })
    }

    /// Reads a whole block, header included, as an opaque payload.
    pub fn read(reader: &mut ByteReader, byte_order: Endianness) -> (r: Result<
        Self,
        PcapNgParseError,
    >)
        ensures
            old(reader).rest().len() < 8 ==> r == Err::<Self, PcapNgParseError>(eof()),
            old(reader).rest().len() >= 8 ==> match read_generic_result(
                old(reader).rest().skip(8),
                block_header_of(old(reader).rest()),
                byte_order,
            ) {
                Ok((v, n)) => r matches Ok(b) && b@ == v && final(reader).rest() == old(
                    reader).rest().skip(8 + n as int),
                Err(err) => r matches Err(x) && x == err,
            },
    {
        let header = match BlockHeader::read(reader) {
            Ok(h) => h,
            Err(err) => return Err(err),
        };
        let r = Self::read_with_header(reader, &header, byte_order);
        proof {
            assert(old(reader).rest().skip(8).skip(0) =~= old(reader).rest().skip(8));
        }
        r
    }
}

/// Any block of a pcap-ng file.
#[derive(Debug, Clone, PartialEq, Eq)]
pub enum PcapNgBlock {
    SectionHeader(SectionHeaderBlock),
    InterfaceDescription(InterfaceDescriptionBlock),
    SimplePacket(SimplePacket),
    EnhancedPacket(EnhancedPacket),
    NameResolution(NameResolutionBlock),
    Generic(GenericBlock),
}

/// A block as a value.
pub ghost enum PcapNgBlockView {
    SectionHeader(SectionHeaderView),
    InterfaceDescription(InterfaceView),
    SimplePacket(SimplePacketView),
    EnhancedPacket(EnhancedPacketView),
    NameResolution(NameResolutionView),
    Generic(GenericBlockView),
}

impl View for PcapNgBlock {
    type V = PcapNgBlockView;

    open spec fn view(&self) -> PcapNgBlockView {
        match self {
            PcapNgBlock::SectionHeader(b) => PcapNgBlockView::SectionHeader(b@),
            PcapNgBlock::InterfaceDescription(b) => PcapNgBlockView::InterfaceDescription(b@),
            PcapNgBlock::SimplePacket(b) => PcapNgBlockView::SimplePacket(b@),
            PcapNgBlock::EnhancedPacket(b) => PcapNgBlockView::EnhancedPacket(b@),
            PcapNgBlock::NameResolution(b) => PcapNgBlockView::NameResolution(b@),
            PcapNgBlock::Generic(b) => PcapNgBlockView::Generic(b@),
        }
    }
}

/// Reading the body of the block that `h` heads from `s`, the bytes after
/// the header, dispatching on its type read in the section's byte order
/// `e`; a Section Header Block takes its own byte order from its body.
#[verifier::opaque]
pub open spec fn read_block_result(s: Seq<u8>, h: BlockHeader, e: Endianness) -> Result<
    (PcapNgBlockView, nat),
    PcapNgParseError,
> {
    let id = uint32(h.block_id@, e);
    if id == SECTION_HEADER_ID {
        match read_shb_result(s, h) {
            Ok((v, n)) => Ok((PcapNgBlockView::SectionHeader(v), n)),
            Err(x) => Err(x),
        }
    } else if id == INTERFACE_DESCRIPTION_ID {
        match read_idb_result(s, h, Some(e)) {
            Ok((v, n)) => Ok((PcapNgBlockView::InterfaceDescription(v), n)),
            Err(x) => Err(x),
        }
    } else if id == SIMPLE_PACKET_ID {
        match read_spb_result(s, h, Some(e)) {
            Ok((v, n)) => Ok((PcapNgBlockView::SimplePacket(v), n)),
            Err(x) => Err(x),
        }
    } else if id == NAME_RESOLUTION_ID {
        match read_nrb_result(s, h, Some(e)) {
            Ok((v, n)) => Ok((PcapNgBlockView::NameResolution(v), n)),
            Err(x) => Err(x),
        }
    } else if id == ENHANCED_PACKET_ID {
        match read_epb_result(s, h, Some(e)) {
            Ok((v, n)) => Ok((PcapNgBlockView::EnhancedPacket(v), n)),
            Err(x) => Err(x),
        }
    } else {
        match read_generic_result(s, h, e) {
            Ok((v, n)) => Ok((PcapNgBlockView::Generic(v), n)),
            Err(x) => Err(x),
        }
    }
}

impl PcapNgBlock {
    /// Reads the body of the block that `header` heads, by its type read in
    /// the section's byte order `byte_order`.
    pub fn read(reader: &mut ByteReader, header: &BlockHeader, byte_order: Endianness) -> (r: Result<
        Self,
        PcapNgParseError,
    >)
        ensures
            match read_block_result(old(reader).rest(), *header, byte_order) {
                Ok((v, n)) => r matches Ok(b) && b@ == v && final(reader).rest() == old(
                    reader).rest().skip(n as int),
                Err(err) => r matches Err(x) && x == err,
            },
    {
        reveal(read_block_result);
        let block_id = header.block_id_as_u32(byte_order);
        if block_id == SECTION_HEADER_ID {
            match SectionHeaderBlock::read_with_header(reader, header, Some(byte_order)) {
                Ok(b) => Ok(PcapNgBlock::SectionHeader(b)),
                Err(err) => Err(err),
            }
        } else if block_id == INTERFACE_DESCRIPTION_ID {
            match InterfaceDescriptionBlock::read_with_header(reader, header, Some(byte_order)) {
                Ok(b) => Ok(PcapNgBlock::InterfaceDescription(b)),
                Err(err) => Err(err),
            }
        } else if block_id == SIMPLE_PACKET_ID {
            match SimplePacket::read_with_header(reader, header, Some(byte_order)) {
                Ok(b) => Ok(PcapNgBlock::SimplePacket(b)),
                Err(err) => Err(err),
            }
        } else if block_id == NAME_RESOLUTION_ID {
            match NameResolutionBlock::read_with_header(reader, header, Some(byte_order)) {
                Ok(b) => Ok(PcapNgBlock::NameResolution(b)),
                Err(err) => Err(err),
            }
        } else if block_id == ENHANCED_PACKET_ID {
            match EnhancedPacket::read_with_header(reader, header, Some(byte_order)) {
                Ok(b) => Ok(PcapNgBlock::EnhancedPacket(b)),
                Err(err) => Err(err),
            }
        } else {
            match GenericBlock::read_with_header(reader, header, byte_order) {
                Ok(b) => Ok(PcapNgBlock::Generic(b)),
                Err(err) => Err(err),
            }
        }
    }
}

} // verus!
