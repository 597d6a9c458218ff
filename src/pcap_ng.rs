//! The pcap-ng format: a sequence of blocks, each framed by its type, its
//! total length, and that length again at its end.
//!
//! Every variable-length field is padded with zeros to a multiple of four
//! bytes.
use vstd::prelude::*;

pub mod blocks;
pub mod options;
pub mod reader;

use crate::byte_order::{Endianness, UndertminedByteOrder, UnexpectedSize};
use crate::link_type::InvalidLinkType;
use crate::pcap::file_header::starts_with4;
use crate::pcap_ng::options::OptionParseError;
use crate::stream::IoError;

verus! {

/// The first four bytes of a pcap-ng file: the type of a Section Header
/// Block, the same in either byte order.
pub const PCAP_NG_MAGIC: [u8; 4] = [0x0A, 0x0D, 0x0D, 0x0A];

/// Whether `b` starts with the pcap-ng magic.
pub open spec fn is_pcap_ng_magic(b: Seq<u8>) -> bool {
    starts_with4(b, 0x0a, 0x0d, 0x0d, 0x0a)
}

/// What can go wrong while reading a pcap-ng file.
#[derive(Debug, Clone, Copy, PartialEq, Eq)]
pub enum PcapNgParseError {
    /// A block's type is not the one that was asked for: the two encodings
    /// of the expected type, and the bytes found.
    UnexpectedBlockId { expected_le: [u8; 4], expected_be: [u8; 4], got: [u8; 4] },
    /// A section's byte-order magic is neither of the two valid ones.
    InvalidEndianness { got: [u8; 4] },
    /// The stream failed or ended inside a block.
    IO(IoError),
    /// The block length is below the block type's minimum: the minimum,
    /// then the length found.
    MinimumSizeNotMet(usize, usize),
    /// A fixed-width field was given the wrong number of bytes.
    UnexpectedSize(UnexpectedSize),
    /// An options list could not be read.
    OptionParseError(OptionParseError),
    /// An interface declares an unknown link type.
    InvalidLinkType(InvalidLinkType),
    /// No byte order was given and none could be inferred.
    UndeterminedByteOrder(UndertminedByteOrder),
}

/// The byte order that a section's byte-order magic stands for.
pub open spec fn section_order_of(b: Seq<u8>) -> Option<Endianness> {
    if starts_with4(b, 0x1a, 0x2b, 0x3c, 0x4d) {
        Some(Endianness::BigEndian)
    } else if starts_with4(b, 0x4d, 0x3c, 0x2b, 0x1a) {
        Some(Endianness::LittleEndian)
    } else {
        None
    }
}

impl Endianness {
    /// Reads the byte-order magic of a Section Header Block.
    pub fn from_pcap_ng_bytes(bytes: &[u8; 4]) -> (r: Result<Self, PcapNgParseError>)
        ensures
            match section_order_of(bytes@) {
                Some(e) => r == Ok::<Endianness, PcapNgParseError>(e),
                None => r == Err::<Endianness, PcapNgParseError>(
                    PcapNgParseError::InvalidEndianness { got: *bytes },
                ),
            },
    {
        if bytes[0] == 0x1A && bytes[1] == 0x2B && bytes[2] == 0x3C && bytes[3] == 0x4D {
            Ok(Endianness::BigEndian)
        } else if bytes[0] == 0x4D && bytes[1] == 0x3C && bytes[2] == 0x2B && bytes[3] == 0x1A {
            Ok(Endianness::LittleEndian)
        } else {
            Err(PcapNgParseError::InvalidEndianness { got: *bytes })
        }
    }
}

/// A length rounded up to the next multiple of four.
pub open spec fn padded(n: int) -> int {
    n + (4 - n % 4) % 4
}

/// Whether `m` is a multiple of four.
pub open spec fn multiple_of_four(m: int) -> bool {
    m % 4 == 0
}

/// The padded length is the smallest multiple of four that is at least the
/// length, and exceeds it by at most three.
pub proof fn lemma_padding(n: nat)
    ensures
        multiple_of_four(padded(n as int)),
        padded(n as int) >= n,
        0 <= padded(n as int) - n <= 3,
        forall|m: int| m >= n && #[trigger] multiple_of_four(m) ==> m >= padded(n as int),
{
}

/// Rounds a 32-bit length up to the next multiple of four.
pub fn padded_u32(length: u32) -> (r: u64)
    ensures
        r == padded(length as int),
{
    let l = length as u64;
    if l % 4 == 0 {
        l
    } else {
        l + (4 - (l % 4))
    }
}

/// Rounds a length up to the next multiple of four.
pub fn pad_length_to_32_bytes(length: usize) -> (r: usize)
    requires
        length + 3 <= usize::MAX,
    ensures
        r == padded(length as int),
{
    if length % 4 == 0 {
        length
    } else {
        length + (4 - (length % 4))
    }
}

} // verus!
