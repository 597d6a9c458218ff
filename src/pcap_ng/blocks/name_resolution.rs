//! The Name Resolution Block: address-to-name records.
//!
//! Each record is a type and a length (two bytes each) and a value padded
//! to four bytes; a record of length zero ends the list.
use vstd::prelude::*;

use crate::byte_order::{u16_at, uint16, Endianness};
use crate::pcap_ng::blocks::{
    block_order, declared_length, eof, id_matches, options_part, order_for, read_footer,
    read_options_part, unexpected_id, BlockHeader, NAME_RESOLUTION_ID,
};
use crate::pcap_ng::options::{options_view, BlockOptionView, BlockOptions};
use crate::pcap_ng::{pad_length_to_32_bytes, padded, PcapNgParseError};
use crate::stream::{truncated, ByteReader, IoError};

verus! {

/// One name resolution record.
#[derive(Debug, Clone, PartialEq, Eq)]
pub struct Record {
    pub record_type: u16,
    pub record_length: u16,
    /// The value, without its padding.
    pub record_data: Vec<u8>,
}

/// A record as a value.
pub ghost struct RecordView {
    pub record_type: u16,
    pub record_length: u16,
    pub record_data: Seq<u8>,
}

impl View for Record {
    type V = RecordView;

    open spec fn view(&self) -> RecordView {
        RecordView {
            record_type: self.record_type,
            record_length: self.record_length,
            record_data: self.record_data@,
        }
    }
}

/// The records of a block, without the end record.
#[derive(Debug, Clone, PartialEq, Eq)]
pub struct Records(pub Vec<Record>);

impl View for Records {
    type V = Seq<RecordView>;

    open spec fn view(&self) -> Seq<RecordView> {
        self.0@.map_values(|r: Record| r@)
    }
}

/// The size of the record that starts `s`.
pub open spec fn record_size(s: Seq<u8>, e: Endianness) -> int {
    4 + padded(uint16(s.subrange(2, 4), e) as int)
}

/// The record that starts `s`.
pub open spec fn record_at(s: Seq<u8>, e: Endianness) -> RecordView {
    let l = uint16(s.subrange(2, 4), e);
    RecordView { record_type: uint16(s.subrange(0, 2), e), record_length: l, record_data: s.subrange(4, 4 + l) }
}

/// The records at the front of `s` and the number of bytes they take, end
/// record included; `None` where the stream ends first.
pub open spec fn parse_records(s: Seq<u8>, e: Endianness) -> Option<(Seq<RecordView>, nat)>
    decreases s.len(),
{
    if s.len() < 4 {
        None
    } else if uint16(s.subrange(2, 4), e) == 0 {
        Some((Seq::empty(), 4))
    } else if s.len() < record_size(s, e) {
        None
    } else {
        match parse_records(s.skip(record_size(s, e)), e) {
            Some((rest, m)) => Some((seq![record_at(s, e)] + rest, (record_size(s, e) + m) as nat)),
            None => None,
        }
    }
}

/// Records never take more bytes than the stream holds.
pub proof fn lemma_records_fit(s: Seq<u8>, e: Endianness)
    ensures
        parse_records(s, e) matches Some((rs, n)) ==> n <= s.len(),
    decreases s.len(),
{
    if s.len() >= 4 && uint16(s.subrange(2, 4), e) != 0 && s.len() >= record_size(s, e) {
        lemma_records_fit(s.skip(record_size(s, e)), e);
    }
}

/// One step of `parse_records` on a record that fits in the stream.
proof fn lemma_records_step(s: Seq<u8>, e: Endianness)
    requires
        s.len() >= 4,
        uint16(s.subrange(2, 4), e) != 0,
        s.len() >= record_size(s, e),
    ensures
        parse_records(s, e) == match parse_records(s.skip(record_size(s, e)), e) {
            Some((rest, m)) => Some((seq![record_at(s, e)] + rest, (record_size(s, e) + m) as nat)),
            None => None,
        },
{
}

/// The length that a block needs at least, at most `usize::MAX`.
pub open spec fn needed_length(n: int) -> usize {
    if n <= usize::MAX {
        n as usize
    } else {
        usize::MAX
    }
}

impl Records {
    /// Reads records up to and including the end record; returns them with
    /// the number of bytes read.
    pub fn read_from_reader(reader: &mut ByteReader, byte_order: Endianness) -> (r: Result<
        (Self, usize),
        PcapNgParseError,
    >)
        ensures
            match parse_records(old(reader).rest(), byte_order) {
                Some((rs, n)) => r matches Ok((x, m)) && x@ == rs && m == n && n <= old(
                    reader).rest().len() && final(reader).rest() == old(reader).rest().skip(
                    n as int,
                ),
                None => r == Err::<(Records, usize), PcapNgParseError>(eof()),
            },
    {
        let ghost s0 = old(reader).rest();
        proof {
            lemma_records_fit(s0, byte_order);
        }
        let available = reader.remaining();
        let mut records: Vec<Record> = Vec::new();
        let ghost mut used: int = 0;
        let ghost mut read: Seq<RecordView> = Seq::empty();
        loop
            invariant
                0 <= used <= s0.len(),
                available == s0.len(),
                s0 == old(reader).rest(),
                reader.rest() == s0.skip(used),
                records@.map_values(|r: Record| r@) == read,
                parse_records(s0, byte_order) == match parse_records(reader.rest(), byte_order) {
                    Some((rs, n)) => Some((read + rs, (used + n) as nat)),
                    None => None,
                },
            decreases reader.rest().len(),
        {
            let ghost s = reader.rest();
            let header = match reader.read_exact(4) {
                Ok(v) => v,
                Err(err) => return Err(PcapNgParseError::IO(err)),
            };
            let h = header.as_slice();
            let record_type = u16_at(h, 0, byte_order);
            let record_length = u16_at(h, 2, byte_order);
            assert(h@.subrange(0, 2) =~= s.subrange(0, 2));
            assert(h@.subrange(2, 4) =~= s.subrange(2, 4));
            if record_length == 0 {
                proof {
                    assert(read + Seq::<RecordView>::empty() =~= read);
                    assert(s0.skip(used).skip(4) =~= s0.skip(used + 4));
                }
                let consumed = available - reader.remaining();
                return Ok((Records(records), consumed));
            }
            let padded_length = pad_length_to_32_bytes(record_length as usize);
            let data = match reader.read_exact(padded_length) {
                Ok(v) => truncated(v, record_length as usize),
                Err(err) => return Err(PcapNgParseError::IO(err)),
            };
            let record = Record { record_type, record_length, record_data: data };
            let ghost rv = record@;
            assert(rv == record_at(s, byte_order)) by {
                assert(rv.record_data =~= s.subrange(4, 4 + record_length));
            }
            records.push(record);
            proof {
                let n = record_size(s, byte_order);
                lemma_records_step(s, byte_order);
                assert(records@.map_values(|r: Record| r@) =~= read + seq![rv]);
                assert(reader.rest() =~= s.skip(n));
                assert(reader.rest() =~= s0.skip(used + n));
                match parse_records(s.skip(n), byte_order) {
                    Some((rs, m)) => {
                        assert(read + (seq![rv] + rs) =~= (read + seq![rv]) + rs);
                    },
                    None => {},
                }
                read = read + seq![rv];
                used = used + n;
            }
        }
    }
}

/// Name resolution records of a section.
#[derive(Debug, Clone, PartialEq, Eq)]
pub struct NameResolutionBlock {
    pub block_length: u32,
    pub records: Records,
    pub options: Option<BlockOptions>,
}

/// A Name Resolution Block as a value.
pub ghost struct NameResolutionView {
    pub block_length: u32,
    pub records: Seq<RecordView>,
    pub options: Option<Seq<BlockOptionView>>,
}

impl View for NameResolutionBlock {
    type V = NameResolutionView;

    open spec fn view(&self) -> NameResolutionView {
        NameResolutionView {
            block_length: self.block_length,
            records: self.records@,
            options: options_view(self.options),
        }
    }
}

/// Reading the body of a Name Resolution Block from `s`, the bytes after
/// its header: the records, options where the block length leaves room for
/// them, the footer.
pub open spec fn read_nrb_result(s: Seq<u8>, h: BlockHeader, given: Option<Endianness>) -> Result<
    (NameResolutionView, nat),
    PcapNgParseError,
> {
    if !id_matches(h, NAME_RESOLUTION_ID) {
        Err(unexpected_id(h, NAME_RESOLUTION_ID))
    } else {
        match block_order(h, NAME_RESOLUTION_ID, given) {
            None => Err(
                PcapNgParseError::UndeterminedByteOrder(crate::byte_order::UndertminedByteOrder),
            ),
            Some(e) => match parse_records(s, e) {
                None => Err(eof()),
                Some((rs, rn)) => {
                    let len = declared_length(h, e);
                    if len < 12 + rn {
                        Err(PcapNgParseError::MinimumSizeNotMet(needed_length(12 + rn as int), len as usize))
                    } else {
                        match options_part(s.skip(rn as int), len - 12 - rn > 0, e) {
                            Err(err) => Err(err),
                            Ok((opts, n)) => if s.len() < rn + n + 4 {
                                Err(eof())
                            } else {
                                Ok(
                                    (
                                        NameResolutionView {
                                            block_length: len,
                                            records: rs,
                                            options: opts,
                                        },
                                        (rn + n + 4) as nat,
                                    ),
                                )
                            },
                        }
                    }
                },
            },
        }
    }
}

impl NameResolutionBlock {
    /// Reads the block body that follows `header`.
    pub fn read_with_header(
        reader: &mut ByteReader,
        header: &BlockHeader,
        byte_order: Option<Endianness>,
    ) -> (r: Result<Self, PcapNgParseError>)
        ensures
            match read_nrb_result(old(reader).rest(), *header, byte_order) {
                Ok((v, n)) => r matches Ok(b) && b@ == v && final(reader).rest() == old(
                    reader).rest().skip(n as int),
                Err(err) => r matches Err(x) && x == err,
            },
    {
        let ghost s = old(reader).rest();
        match header.matches_block_id(NAME_RESOLUTION_ID) {
            Ok(()) => {},
            Err(err) => return Err(err),
        }
        let byte_order = match order_for(header, NAME_RESOLUTION_ID, byte_order) {
            Ok(e) => e,
            Err(err) => return Err(err),
        };
        let block_length = header.block_length_as_u32(byte_order);
        let (records, bytes_read) = match Records::read_from_reader(reader, byte_order) {
            Ok(x) => x,
            Err(err) => return Err(err),
        };
        if bytes_read > usize::MAX - 12 {
            return Err(PcapNgParseError::MinimumSizeNotMet(usize::MAX, block_length as usize));
        }
        let needed = bytes_read + 12;
        if (block_length as usize) < needed {
            return Err(PcapNgParseError::MinimumSizeNotMet(needed, block_length as usize));
        }
        let options_space = block_length as usize - needed;
        let options = match read_options_part(reader, options_space > 0, byte_order) {
            Ok(o) => o,
            Err(err) => return Err(err),
        };
        let ghost after = reader.rest();
        match read_footer(reader) {
            Ok(()) => {},
            Err(err) => return Err(err),
        }
        proof {
            let rn = bytes_read as int;
            match options_part(s.skip(rn), options_space > 0, byte_order) {
                Ok((o, n)) => {
                    assert(s.skip(rn).skip(n as int) =~= s.skip(rn + n));
                    assert(after.skip(4) =~= s.skip(rn + n + 4));
                },
                Err(_) => {},
            }
        }
        Ok(Self { block_length, records, options })
    }

    /// Reads a whole Name Resolution Block, header included.
    pub fn read(reader: &mut ByteReader, byte_order: Endianness) -> (r: Result<
        Self,
        PcapNgParseError,
    >)
        ensures
            old(reader).rest().len() < 8 ==> r == Err::<Self, PcapNgParseError>(eof()),
            old(reader).rest().len() >= 8 ==> match read_nrb_result(
                old(reader).rest().skip(8),
                crate::pcap_ng::blocks::block_header_of(old(reader).rest()),
                Some(byte_order),
            ) {
                Ok((v, n)) => r matches Ok(b) && b@ == v && final(reader).rest() == old(
                    reader).rest().skip(8 + n as int),
                Err(err) => r matches Err(x) && x == err,
            },
    {
        let header = match BlockHeader::read(reader) {
            Ok(h) => h,
            Err(err) => return Err(err),
        };
        let r = Self::read_with_header(reader, &header, Some(byte_order));
        proof {
            assert(old(reader).rest().skip(8).skip(0) =~= old(reader).rest().skip(8));
        }
        r
    }
}

} // verus!
