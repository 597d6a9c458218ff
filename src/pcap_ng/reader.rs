//! Walking the blocks of a pcap-ng file, section by section.
//!
//! The reader keeps the current Section Header Block, whose byte order
//! applies to every block up to the next one, and the interfaces described
//! so far in the section. A new section replaces the first and empties the
//! second.
use vstd::prelude::*;

use crate::any_reader::{AnyPacketHeader, AnyPacketHeaderView};
use crate::byte_order::Endianness;
use crate::pcap_ng::blocks::{
    block_header_of, eof, read_block_result, read_shb_block_result, BlockHeader,
    InterfaceDescriptionBlock, InterfaceView, PcapNgBlock, PcapNgBlockView, SectionHeaderBlock,
    SectionHeaderView,
};
use crate::pcap_ng::PcapNgParseError;
use crate::stream::ByteReader;

verus! {

/// The outcome of reading the next block from `rest` in a section of byte
/// order `e`: nothing at the end of the stream, an I/O error where the
/// stream ends inside the 8-byte header, else the block and its size.
pub open spec fn next_block_result(rest: Seq<u8>, e: Endianness) -> Result<
    Option<(PcapNgBlockView, nat)>,
    PcapNgParseError,
> {
    if rest.len() == 0 {
        Ok(None)
    } else if rest.len() < 8 {
        Err(eof())
    } else {
        match read_block_result(rest.skip(8), block_header_of(rest), e) {
            Ok((b, n)) => Ok(Some((b, n + 8))),
            Err(x) => Err(x),
        }
    }
}

/// The section header after block `b`.
pub open spec fn section_after(section: SectionHeaderView, b: PcapNgBlockView) -> SectionHeaderView {
    match b {
        PcapNgBlockView::SectionHeader(v) => v,
        _ => section,
    }
}

/// The interface table after block `b`: emptied by a new section, grown by
/// an interface description.
pub open spec fn interfaces_after(list: Seq<InterfaceView>, b: PcapNgBlockView) -> Seq<
    InterfaceView,
> {
    match b {
        PcapNgBlockView::SectionHeader(_) => Seq::empty(),
        PcapNgBlockView::InterfaceDescription(v) => list.push(v),
        _ => list,
    }
}

/// A new section replaces the current one, byte order included, and
/// empties the interface table, whatever came before it.
pub proof fn lemma_new_section_resets(
    section: SectionHeaderView,
    list: Seq<InterfaceView>,
    v: SectionHeaderView,
)
    ensures
        section_after(section, PcapNgBlockView::SectionHeader(v)) == v,
        section_after(section, PcapNgBlockView::SectionHeader(v)).byte_order == v.byte_order,
        interfaces_after(list, PcapNgBlockView::SectionHeader(v)).len() == 0,
{
}

/// The packet that block `b` carries, if it is a packet block.
pub open spec fn packet_of(b: PcapNgBlockView) -> Option<(AnyPacketHeaderView, Seq<u8>)> {
    match b {
        PcapNgBlockView::EnhancedPacket(p) => Some(
            (
                AnyPacketHeaderView::PcapNgEnhanced {
                    block_length: p.block_length,
                    interface_id: p.interface_id,
                    timestamp_high: p.timestamp_high,
                    timestamp_low: p.timestamp_low,
                    captured_length: p.captured_length,
                    original_length: p.original_length,
                    options: p.options,
                },
                p.content,
            ),
        ),
        PcapNgBlockView::SimplePacket(p) => Some(
            (
                AnyPacketHeaderView::PcapNgSimple {
                    block_length: p.block_length,
                    original_length: p.original_length,
                },
                p.content,
            ),
        ),
        _ => None,
    }
}

/// A block never takes more bytes than the stream holds, and at least its
/// header.
pub proof fn lemma_block_fits(rest: Seq<u8>, e: Endianness)
    ensures
        next_block_result(rest, e) matches Ok(Some((b, n))) ==> 8 <= n <= rest.len(),
{
    reveal(read_block_result);
}

#[via_fn]
proof fn next_ng_packet_decreases(
    rest: Seq<u8>,
    sec: SectionHeaderView,
    ifs: Seq<InterfaceView>,
) {
    lemma_block_fits(rest, sec.byte_order);
}

/// The outcome of reading the next packet from `rest` in section `sec` with
/// interface table `ifs`: blocks that carry no packet are passed over, each
/// acting on the section and the table as `next_block` does, until a packet
/// block or the end. A packet comes with the number of bytes consumed and
/// the section and interface table it is in.
pub open spec fn next_ng_packet(rest: Seq<u8>, sec: SectionHeaderView, ifs: Seq<InterfaceView>) -> Result<
    Option<(AnyPacketHeaderView, Seq<u8>, nat, SectionHeaderView, Seq<InterfaceView>)>,
    PcapNgParseError,
>
    decreases rest.len(),
    via next_ng_packet_decreases
{
    match next_block_result(rest, sec.byte_order) {
        Err(x) => Err(x),
        Ok(None) => Ok(None),
        Ok(Some((b, n))) => match packet_of(b) {
            Some((h, c)) => Ok(Some((h, c, n, sec, ifs))),
            None => match next_ng_packet(
                rest.skip(n as int),
                section_after(sec, b),
                interfaces_after(ifs, b),
            ) {
                Ok(Some((h, c, m, s, i))) => Ok(Some((h, c, n + m, s, i))),
                other => other,
            },
        },
    }
}

#[via_fn]
proof fn walk_blocks_decreases(rest: Seq<u8>, sec: SectionHeaderView, ifs: Seq<InterfaceView>) {
    lemma_block_fits(rest, sec.byte_order);
}

/// Reading every block of `rest`, starting in section `sec` with interface
/// table `ifs`: the blocks in order, then the section and the table at the
/// end of the stream. Each block is read in the byte order of the section
/// it is in.
pub open spec fn walk_blocks(rest: Seq<u8>, sec: SectionHeaderView, ifs: Seq<InterfaceView>) -> Result<
    (Seq<PcapNgBlockView>, SectionHeaderView, Seq<InterfaceView>),
    PcapNgParseError,
>
    decreases rest.len(),
    via walk_blocks_decreases
{
    match next_block_result(rest, sec.byte_order) {
        Err(x) => Err(x),
        Ok(None) => Ok((Seq::empty(), sec, ifs)),
        Ok(Some((b, n))) => prepend_block(
            b,
            walk_blocks(rest.skip(n as int), section_after(sec, b), interfaces_after(ifs, b)),
        ),
    }
}

/// `w` with block `b` in front of its blocks.
pub open spec fn prepend_block(
    b: PcapNgBlockView,
    w: Result<(Seq<PcapNgBlockView>, SectionHeaderView, Seq<InterfaceView>), PcapNgParseError>,
) -> Result<(Seq<PcapNgBlockView>, SectionHeaderView, Seq<InterfaceView>), PcapNgParseError> {
    match w {
        Ok((bs, s, i)) => Ok((seq![b] + bs, s, i)),
        Err(x) => Err(x),
    }
}

/// A file of several sections: wherever a Section Header Block comes next,
/// it is the next block read, and every block after it, up to the next
/// section, is read in its byte order with an interface table that starts
/// empty, whatever the sections before it held.
pub proof fn lemma_walk_new_section(
    rest: Seq<u8>,
    sec: SectionHeaderView,
    ifs: Seq<InterfaceView>,
    v: SectionHeaderView,
    n: nat,
)
    requires
        next_block_result(rest, sec.byte_order) == Ok::<
            Option<(PcapNgBlockView, nat)>,
            PcapNgParseError,
        >(Some((PcapNgBlockView::SectionHeader(v), n))),
    ensures
        walk_blocks(rest, sec, ifs) == prepend_block(
            PcapNgBlockView::SectionHeader(v),
            walk_blocks(rest.skip(n as int), v, Seq::empty()),
        ),
{
}

/// Reads the blocks of a pcap-ng file held in a stream.
#[derive(Debug)]
pub struct SyncPcapNgReader {
    reader: ByteReader,
    current_section: SectionHeaderBlock,
    interfaces: Vec<InterfaceDescriptionBlock>,
}

impl SyncPcapNgReader {
    /// The bytes of the file that have not been read yet.
    pub closed spec fn stream(&self) -> Seq<u8> {
        self.reader.rest()
    }

    /// The header of the current section.
    pub closed spec fn section(&self) -> SectionHeaderView {
        self.current_section@
    }

    /// The interfaces of the current section, in order of appearance.
    pub closed spec fn interface_list(&self) -> Seq<InterfaceView> {
        self.interfaces@.map_values(|i: InterfaceDescriptionBlock| i@)
    }

    /// Reads the first Section Header Block of the stream.
    pub fn new(reader: ByteReader) -> (r: Result<Self, PcapNgParseError>)
        ensures
            match read_shb_block_result(reader.rest()) {
                Ok((v, n)) => r matches Ok(x) && x.section() == v && x.interface_list()
                    == Seq::<InterfaceView>::empty() && x.stream() == reader.rest().skip(n as int),
                Err(err) => r matches Err(y) && y == err,
            },
    {
        let mut reader = reader;
        let current_section = match SectionHeaderBlock::read_from_reader(&mut reader) {
            Ok(s) => s,
            Err(err) => return Err(err),
        };
        let r = Self { reader, current_section, interfaces: Vec::new() };
        assert(r.interface_list() =~= Seq::<InterfaceView>::empty());
        Ok(r)
    }

    /// A reader over a stream whose first Section Header Block was read
    /// already.
    pub fn new_with_section(reader: ByteReader, current_section: SectionHeaderBlock) -> (r: Self)
        ensures
            r.section() == current_section@,
            r.interface_list() == Seq::<InterfaceView>::empty(),
            r.stream() == reader.rest(),
    {
        let r = Self { reader, current_section, interfaces: Vec::new() };
        assert(r.interface_list() =~= Seq::<InterfaceView>::empty());
        r
    }

    /// The header of the current section.
    pub fn current_section(&self) -> (r: &SectionHeaderBlock)
        ensures
            r@ == self.section(),
    {
        &self.current_section
    }

    /// The interfaces described so far in the current section.
    pub fn interfaces(&self) -> (r: &[InterfaceDescriptionBlock])
        ensures
            r@.map_values(|i: InterfaceDescriptionBlock| i@) == self.interface_list(),
    {
        self.interfaces.as_slice()
    }

    /// Reads the next block, or `None` at the end of the stream. A Section
    /// Header Block becomes the current section and empties the interface
    /// table; an Interface Description Block is added to it.
    pub fn next_block(&mut self) -> (r: Result<Option<PcapNgBlock>, PcapNgParseError>)
        ensures
            match next_block_result(old(self).stream(), old(self).section().byte_order) {
                Ok(None) => r matches Ok(None) && final(self).stream() == old(self).stream()
                    && final(self).section() == old(self).section() && final(self).interface_list()
                    == old(self).interface_list(),
                Ok(Some((b, n))) => r matches Ok(Some(x)) && x@ == b && final(self).stream() == old(
                    self).stream().skip(n as int) && final(self).section() == section_after(
                    old(self).section(),
                    b,
                ) && final(self).interface_list() == interfaces_after(
                    old(self).interface_list(),
                    b,
                ),
                Err(err) => r matches Err(y) && y == err && final(self).section() == old(
                    self).section() && final(self).interface_list() == old(self).interface_list(),
            },
            r matches Ok(Some(x)) ==> walk_blocks(
                old(self).stream(),
                old(self).section(),
                old(self).interface_list(),
            ) == prepend_block(
                x@,
                walk_blocks(final(self).stream(), final(self).section(), final(self).interface_list()),
            ),
            r matches Ok(None) ==> walk_blocks(
                old(self).stream(),
                old(self).section(),
                old(self).interface_list(),
            ) == Ok::<(Seq<PcapNgBlockView>, SectionHeaderView, Seq<InterfaceView>), PcapNgParseError>(
                (Seq::empty(), old(self).section(), old(self).interface_list()),
            ),
    {
        let ghost s = self.reader.rest();
        if self.reader.remaining() == 0 {
            return Ok(None);
        }
        let header = match BlockHeader::read(&mut self.reader) {
            Ok(h) => h,
            Err(err) => return Err(err),
        };
        let result = match PcapNgBlock::read(&mut self.reader, &header, self.current_section.byte_order) {
            Ok(b) => b,
            Err(err) => return Err(err),
        };
        proof {
            lemma_block_fits(s, old(self).section().byte_order);
            match read_block_result(s.skip(8), header, old(self).section().byte_order) {
                Ok((b, n)) => {
                    assert(s.skip(8).skip(n as int) =~= s.skip(n as int + 8));
                },
                Err(_) => {},
            }
        }
        match &result {
            PcapNgBlock::InterfaceDescription(interface_block) => {
                self.interfaces.push(interface_block.duplicate());
                assert(self.interface_list() =~= old(self).interface_list().push(
                    interface_block@,
                ));
            },
            PcapNgBlock::SectionHeader(section_header) => {
                self.interfaces.clear();
                self.current_section = section_header.duplicate();
                assert(self.interface_list() =~= Seq::<InterfaceView>::empty());
            },
            _ => {},
        }
        Ok(Some(result))
    }

    /// Reads blocks up to the next packet block and returns its header and
    /// content, or `None` at the end of the stream.
    pub fn next_packet(&mut self) -> (r: Result<Option<(AnyPacketHeader, Vec<u8>)>, PcapNgParseError>)
        ensures
            match next_ng_packet(old(self).stream(), old(self).section(), old(self).interface_list()) {
                Ok(None) => r matches Ok(None) && final(self).stream().len() == 0,
                Ok(Some((h, c, n, sec, ifs))) => r matches Ok(Some((x, d))) && x@ == h && d@ == c
                    && final(self).stream() == old(self).stream().skip(n as int) && final(
                    self).section() == sec && final(self).interface_list() == ifs,
                Err(err) => r matches Err(y) && y == err,
            },
    {
        let ghost s0 = old(self).stream();
        let ghost e0 = old(self).section();
        let ghost i0 = old(self).interface_list();
        let ghost mut used: int = 0;
        loop
            invariant
                s0 == old(self).stream(),
                e0 == old(self).section(),
                i0 == old(self).interface_list(),
                0 <= used <= s0.len(),
                self.stream() == s0.skip(used),
                next_ng_packet(s0, e0, i0) == match next_ng_packet(
                    self.stream(),
                    self.section(),
                    self.interface_list(),
                ) {
                    Ok(Some((h, c, m, sec, ifs))) => Ok(Some((h, c, (used + m) as nat, sec, ifs))),
                    other => other,
                },
            decreases self.stream().len(),
        {
            let ghost s = self.stream();
            let ghost e = self.section().byte_order;
            proof {
                lemma_block_fits(s, e);
            }
            let block = match self.next_block() {
                Ok(Some(b)) => b,
                Ok(None) => return Ok(None),
                Err(err) => return Err(err),
            };
            proof {
                let n = next_block_result(s, e)->Ok_0->Some_0.1;
                assert(s.skip(n as int) =~= s0.skip(used + n));
                used = used + n;
            }
            match block {
                PcapNgBlock::EnhancedPacket(p) => {
                    let header = AnyPacketHeader::PcapNgEnhanced {
                        block_length: p.block_length,
                        original_length: p.original_length,
                        interface_id: p.interface_id,
                        timestamp_high: p.timestamp_high,
                        timestamp_low: p.timestamp_low,
                        captured_length: p.captured_length,
                        options: p.options,
                    };
                    return Ok(Some((header, p.content)));
                },
                PcapNgBlock::SimplePacket(p) => {
                    let header = AnyPacketHeader::PcapNgSimple {
                        block_length: p.block_length,
                        original_length: p.original_length,
                    };
                    return Ok(Some((header, p.content)));
                },
                _ => {},
            }
        }
    }

    /// Reads the next packet like `next_packet`, into `buffer`, which is
    /// cleared and refilled (its allocation reused), and returns the header
    /// with a view of the content in `buffer`.
    pub fn next_packet_into<'a>(&mut self, buffer: &'a mut Vec<u8>) -> (r: Result<
        Option<(AnyPacketHeader, &'a [u8])>,
        PcapNgParseError,
    >)
        ensures
            match next_ng_packet(old(self).stream(), old(self).section(), old(self).interface_list()) {
                Ok(None) => r matches Ok(None) && final(self).stream().len() == 0,
                Ok(Some((h, c, n, sec, ifs))) => r matches Ok(Some((x, d))) && x@ == h && d@ == c
                    && final(self).stream() == old(self).stream().skip(n as int) && final(
                    self).section() == sec && final(self).interface_list() == ifs,
                Err(err) => r matches Err(y) && y == err,
            },
    {
        match self.next_packet() {
            Ok(Some((header, content))) => {
                buffer.clear();
                crate::stream::append_slice(buffer, content.as_slice());
                assert(buffer@ =~= content@);
                Ok(Some((header, buffer.as_slice())))
            },
            Ok(None) => Ok(None),
            Err(err) => Err(err),
        }
    }
}

} // verus!
