//! The options list that ends most pcap-ng blocks.
//!
//! Each option is a code and a length (two bytes each), a Private
//! Enterprise Number (four bytes) where the code is a custom one, then the
//! value padded with zeros to a multiple of four. A code and a length that
//! are both zero end the list.
use vstd::prelude::*;

use crate::byte_order::{bytes16, bytes32, u16_at, u32_at, uint16, uint32, ByteOrder, Endianness, UnexpectedSize};
use crate::pcap_ng::{pad_length_to_32_bytes, padded};
use crate::stream::{ByteReader, IoError};

verus! {

/// The option codes that every block may carry.
#[derive(Debug, Clone, Copy, PartialEq, Eq, Structural)]
pub enum StandardOptions {
    /// Ends the list; never stored as an element.
    EndOfOpt,
    /// A UTF-8 comment.
    Comment,
    /// A custom UTF-8 option that may be copied to a new file.
    CustomUTF8Copied,
    /// A custom binary option that may be copied to a new file.
    CustomBinaryCopied,
    /// A custom UTF-8 option that must not be copied to a new file.
    CustomUTF8NotCopied,
    /// A custom binary option that must not be copied to a new file.
    CustomBinaryNotCopied,
}

/// Whether an option code is one of the four custom ones, which carry a
/// Private Enterprise Number.
pub open spec fn is_custom_code(code: u16) -> bool {
    code == 2988 || code == 2989 || code == 19372 || code == 19373
}

/// The code of a standard option.
pub open spec fn standard_option_code(o: StandardOptions) -> u16 {
    match o {
        StandardOptions::EndOfOpt => 0,
        StandardOptions::Comment => 1,
        StandardOptions::CustomUTF8Copied => 2988,
        StandardOptions::CustomBinaryCopied => 2989,
        StandardOptions::CustomUTF8NotCopied => 19372,
        StandardOptions::CustomBinaryNotCopied => 19373,
    }
}

impl StandardOptions {
    /// The standard option with code `value`, if any.
    pub fn try_from_u16(value: u16) -> (r: Option<StandardOptions>)
        ensures
            r matches Some(o) ==> standard_option_code(o) == value,
            r is None <==> !(value == 0 || value == 1 || is_custom_code(value)),
    {
        match value {
            0 => Some(StandardOptions::EndOfOpt),
            1 => Some(StandardOptions::Comment),
            2988 => Some(StandardOptions::CustomUTF8Copied),
            2989 => Some(StandardOptions::CustomBinaryCopied),
            19372 => Some(StandardOptions::CustomUTF8NotCopied),
            19373 => Some(StandardOptions::CustomBinaryNotCopied),
            _ => None,
        }
    }

    /// The code of this option.
    pub fn code(&self) -> (r: u16)
        ensures
            r == standard_option_code(*self),
    {
        match self {
            StandardOptions::EndOfOpt => 0,
            StandardOptions::Comment => 1,
            StandardOptions::CustomUTF8Copied => 2988,
            StandardOptions::CustomBinaryCopied => 2989,
            StandardOptions::CustomUTF8NotCopied => 19372,
            StandardOptions::CustomBinaryNotCopied => 19373,
        }
    }

    /// Whether this is one of the custom options.
    pub fn is_custom(&self) -> (r: bool)
        ensures
            r == is_custom_code(standard_option_code(*self)),
    {
        match self {
            StandardOptions::CustomBinaryCopied | StandardOptions::CustomBinaryNotCopied
            | StandardOptions::CustomUTF8Copied | StandardOptions::CustomUTF8NotCopied => true,
            _ => false,
        }
    }
}

fn code_is_custom(code: u16) -> (r: bool)
    ensures
        r == is_custom_code(code),
{
    match StandardOptions::try_from_u16(code) {
        Some(o) => o.is_custom(),
        None => false,
    }
}

/// One option of a block.
#[derive(Debug, Clone, PartialEq, Eq)]
pub struct BlockOption {
    /// The option code.
    pub code: u16,
    /// The length of the value in bytes.
    pub length: u16,
    /// The Private Enterprise Number, present for custom options only.
    pub pen: Option<u32>,
    /// The value, without its padding.
    pub value: Vec<u8>,
}

/// An option as a mathematical value.
pub ghost struct BlockOptionView {
    pub code: u16,
    pub length: u16,
    pub pen: Option<u32>,
    pub value: Seq<u8>,
}

impl View for BlockOption {
    type V = BlockOptionView;

    open spec fn view(&self) -> BlockOptionView {
        BlockOptionView { code: self.code, length: self.length, pen: self.pen, value: self.value@ }
    }
}

/// Why an option cannot be built.
#[derive(Debug, Clone, Copy, PartialEq, Eq, Structural)]
pub enum InvalidOption {
    /// A custom option code was given no Private Enterprise Number.
    CustomRequiresPen,
    /// A code that is not a custom one was given a Private Enterprise
    /// Number.
    UnexpectedPen(u16),
}

/// Whether an option is one that can be written and read back: its length
/// is that of its value, it has a Private Enterprise Number exactly when its
/// code is a custom one, and it is not the end-of-list marker.
pub open spec fn valid_option(o: BlockOptionView) -> bool {
    &&& o.length == o.value.len()
    &&& (o.pen is Some <==> is_custom_code(o.code))
    &&& !(o.code == 0 && o.length == 0)
}

impl BlockOption {
    /// Builds an option. A Private Enterprise Number must be given for a
    /// custom code and only for one.
    pub fn new(option_code: u16, pen: Option<u32>, option_value: &[u8]) -> (r: Result<
        Self,
        InvalidOption,
    >)
        requires
            option_value@.len() <= u16::MAX,
        ensures
            is_custom_code(option_code) && pen is None ==> r == Err::<BlockOption, InvalidOption>(
                InvalidOption::CustomRequiresPen,
            ),
            !is_custom_code(option_code) && pen is Some ==> r == Err::<BlockOption, InvalidOption>(
                InvalidOption::UnexpectedPen(option_code),
            ),
            (pen is Some <==> is_custom_code(option_code)) ==> (r matches Ok(o) && o@ == (
            BlockOptionView {
                code: option_code,
                length: option_value@.len() as u16,
                pen,
                value: option_value@,
            })),
    {
        let custom = code_is_custom(option_code);
        if custom && pen.is_none() {
            return Err(InvalidOption::CustomRequiresPen);
        } else if !custom && pen.is_some() {
            return Err(InvalidOption::UnexpectedPen(option_code));
        }
        let value = slice_to_vec(option_value);
        Ok(Self { code: option_code, length: option_value.len() as u16, pen, value })
    }

    /// A copy of this option.
    pub fn duplicate(&self) -> (r: Self)
        ensures
            r@ == self@,
    {
        BlockOption {
            code: self.code,
            length: self.length,
            pen: self.pen,
            value: slice_to_vec(self.value.as_slice()),
        }
    }

    /// The number of zero bytes that follow the value on the wire.
    pub fn padding_length(&self) -> (r: usize)
        ensures
            r == padded(self.length as int) - self.length,
    {
        pad_length_to_32_bytes(self.length as usize) - self.length as usize
    }
}

fn slice_to_vec(s: &[u8]) -> (r: Vec<u8>)
    ensures
        r@ == s@,
{
    let mut v: Vec<u8> = Vec::new();
    let mut i: usize = 0;
    while i < s.len()
        invariant
            i <= s@.len(),
            v@ == s@.take(i as int),
        decreases s@.len() - i,
    {
        v.push(s[i]);
        i = i + 1;
        assert(v@ =~= s@.take(i as int));
    }
    assert(s@.take(s@.len() as int) =~= s@);
    v
}

/// What can go wrong while reading options.
#[derive(Debug, Clone, Copy, PartialEq, Eq)]
pub enum OptionParseError {
    /// The stream ended inside the list.
    IO(IoError),
    /// A fixed-width field was given the wrong number of bytes.
    UnexpectedSize(UnexpectedSize),
}

/// A list of options, without its end marker.
#[derive(Debug, Clone, PartialEq, Eq)]
pub struct BlockOptions(pub Vec<BlockOption>);

impl View for BlockOptions {
    type V = Seq<BlockOptionView>;

    open spec fn view(&self) -> Seq<BlockOptionView> {
        self.0@.map_values(|o: BlockOption| o@)
    }
}

/// The options of a block that may have none, as values.
pub open spec fn options_view(o: Option<BlockOptions>) -> Option<Seq<BlockOptionView>> {
    match o {
        Some(b) => Some(b@),
        None => None,
    }
}

/// `n` zero bytes.
pub open spec fn zeros(n: int) -> Seq<u8> {
    Seq::new(n as nat, |i: int| 0u8)
}

/// The bytes of one option.
#[verifier::opaque]
pub open spec fn option_wire(o: BlockOptionView, e: Endianness) -> Seq<u8> {
    bytes16(o.code, e) + bytes16(o.length, e) + match o.pen {
        Some(p) => bytes32(p, e),
        None => Seq::empty(),
    } + o.value + zeros(padded(o.length as int) - o.length)
}

/// The bytes of an options list, end marker included.
pub open spec fn options_wire(os: Seq<BlockOptionView>, e: Endianness) -> Seq<u8>
    decreases os.len(),
{
    if os.len() == 0 {
        bytes16(0, e) + bytes16(0, e)
    } else {
        option_wire(os[0], e) + options_wire(os.skip(1), e)
    }
}

/// The size of the option that starts `s`: header, enterprise number where
/// the code is custom, and padded value.
pub open spec fn option_size(s: Seq<u8>, e: Endianness) -> int {
    let code = uint16(s.subrange(0, 2), e);
    let len = uint16(s.subrange(2, 4), e);
    (if is_custom_code(code) {
        8int
    } else {
        4int
    }) + padded(len as int)
}

/// The option that starts `s`, once its size is known to fit.
#[verifier::opaque]
pub open spec fn option_at(s: Seq<u8>, e: Endianness) -> BlockOptionView {
    let code = uint16(s.subrange(0, 2), e);
    let len = uint16(s.subrange(2, 4), e);
    let h: int = if is_custom_code(code) {
        8
    } else {
        4
    };
    BlockOptionView {
        code,
        length: len,
        pen: if is_custom_code(code) {
            Some(uint32(s.subrange(4, 8), e))
        } else {
            None
        },
        value: s.subrange(h, h + len),
    }
}

/// Whether `s` starts with the end-of-list marker.
pub open spec fn at_end_marker(s: Seq<u8>, e: Endianness) -> bool {
    uint16(s.subrange(0, 2), e) == 0 && uint16(s.subrange(2, 4), e) == 0
}

/// The options list at the front of `s` and the number of bytes it takes,
/// end marker included; `None` where the stream ends first.
pub open spec fn parse_options(s: Seq<u8>, e: Endianness) -> Option<(Seq<BlockOptionView>, nat)>
    decreases s.len(),
{
    if s.len() < 4 {
        None
    } else if at_end_marker(s, e) {
        Some((Seq::empty(), 4))
    } else if s.len() < option_size(s, e) {
        None
    } else {
        let n = option_size(s, e);
        match parse_options(s.skip(n), e) {
            Some((rest, m)) => Some((seq![option_at(s, e)] + rest, (n + m) as nat)),
            None => None,
        }
    }
}

/// An options list never takes more bytes than the stream holds.
pub proof fn lemma_options_fit(s: Seq<u8>, e: Endianness)
    ensures
        parse_options(s, e) matches Some((os, n)) ==> n <= s.len(),
    decreases s.len(),
{
    if s.len() >= 4 && !at_end_marker(s, e) && s.len() >= option_size(s, e) {
        lemma_options_fit(s.skip(option_size(s, e)), e);
    }
}

/// The outcome of reading an options list from the front of a stream.
pub open spec fn read_options_result(s: Seq<u8>, e: Endianness) -> Result<
    Seq<BlockOptionView>,
    OptionParseError,
> {
    match parse_options(s, e) {
        Some((os, n)) => Ok(os),
        None => Err(OptionParseError::IO(IoError::UnexpectedEof)),
    }
}

/// The number of bytes that the options list at the front of `s` takes.
pub open spec fn options_size(s: Seq<u8>, e: Endianness) -> nat {
    match parse_options(s, e) {
        Some((os, n)) => n,
        None => 0,
    }
}

impl BlockOptions {
    /// A copy of this list.
    pub fn duplicate(&self) -> (r: Self)
        ensures
            r@ == self@,
    {
        let mut v: Vec<BlockOption> = Vec::new();
        let mut i: usize = 0;
        while i < self.0.len()
            invariant
                i <= self.0@.len(),
                v@.map_values(|o: BlockOption| o@) == self@.take(i as int),
            decreases self.0@.len() - i,
        {
            let d = self.0[i].duplicate();
            assert(d@ == self@[i as int]);
            let ghost prev = v@;
            v.push(d);
            assert(v@.map_values(|o: BlockOption| o@) =~= prev.map_values(|o: BlockOption| o@)
                + seq![d@]);
            i = i + 1;
            assert(v@.map_values(|o: BlockOption| o@) =~= self@.take(i as int));
        }
        assert(self@.take(i as int) =~= self@);
        BlockOptions(v)
    }

    /// Reads the header of the next option: its code, length and enterprise
    /// number, or `None` at the end marker.
    fn read_option_header(reader: &mut ByteReader, byte_order: Endianness) -> (r: Result<
        Option<(u16, u16, Option<u32>)>,
        OptionParseError,
    >)
        ensures
            old(reader).rest().len() < 4 ==> r is Err,
            old(reader).rest().len() >= 4 && at_end_marker(old(reader).rest(), byte_order) ==> (
            r matches Ok(None) && final(reader).rest() == old(reader).rest().skip(4)),
            old(reader).rest().len() >= 4 && !at_end_marker(old(reader).rest(), byte_order) ==> ({
                let s = old(reader).rest();
                let h: int = if is_custom_code(uint16(s.subrange(0, 2), byte_order)) {
                    8
                } else {
                    4
                };
                if s.len() < h {
                    r is Err
                } else {
                    r matches Ok(Some((code, len, pen))) && code == option_at(s, byte_order).code
                        && len == option_at(s, byte_order).length && pen == option_at(
                        s,
                        byte_order,
                    ).pen && final(reader).rest() == s.skip(h)
                }
            }),
            r matches Err(err) ==> err == OptionParseError::IO(IoError::UnexpectedEof),
    {
        reveal(option_at);
        let ghost s = reader.rest();
        let head = match reader.read_exact(4) {
            Ok(v) => v,
            Err(err) => return Err(OptionParseError::IO(err)),
        };
        let code = u16_at(head.as_slice(), 0, byte_order);
        let length = u16_at(head.as_slice(), 2, byte_order);
        assert(head@.subrange(0, 2) =~= s.subrange(0, 2));
        assert(head@.subrange(2, 4) =~= s.subrange(2, 4));
        if code == 0 && length == 0 {
            return Ok(None);
        }
        let pen = if code_is_custom(code) {
            let p = match reader.read_exact(4) {
                Ok(v) => v,
                Err(err) => return Err(OptionParseError::IO(err)),
            };
            assert(p@ =~= s.subrange(4, 8));
            assert(s.skip(4).skip(4) =~= s.skip(8));
            Some(u32_at(p.as_slice(), 0, byte_order))
        } else {
            None
        };
        Ok(Some((code, length, pen)))
    }

    /// Reads options from the stream up to and including the end marker,
    /// appending them to this list.
    pub fn read_in(&mut self, reader: &mut ByteReader, byte_order: Endianness) -> (r: Result<
        (),
        OptionParseError,
    >)
        ensures
            match parse_options(old(reader).rest(), byte_order) {
                Some((os, n)) => r is Ok && final(self)@ == old(self)@ + os && final(reader).rest() == old(reader).rest().skip(n as int),
                None => r == Err::<(), OptionParseError>(
                    OptionParseError::IO(IoError::UnexpectedEof),
                ),
            },
    {
        reveal(option_at);
        let ghost s0 = old(reader).rest();
        let ghost mut read: Seq<BlockOptionView> = Seq::empty();
        let ghost mut used: int = 0;
        loop
            invariant
                0 <= used <= s0.len(),
                s0 == old(reader).rest(),
                reader.rest() == s0.skip(used),
                self@ == old(self)@ + read,
                parse_options(s0, byte_order) == match parse_options(reader.rest(), byte_order) {
                    Some((os, n)) => Some((read + os, (used + n) as nat)),
                    None => None,
                },
            decreases reader.rest().len(),
        {
            proof {
                reveal(option_at);
            }
            let ghost s = reader.rest();
            let (code, length, pen) = match Self::read_option_header(reader, byte_order) {
                Ok(Some(h)) => h,
                Ok(None) => {
                    proof {
                        assert(parse_options(s, byte_order) == Some(
                            (Seq::<BlockOptionView>::empty(), 4nat),
                        ));
                        assert(read + Seq::<BlockOptionView>::empty() =~= read);
                        assert(s0.skip(used).skip(4) =~= s0.skip(used + 4));
                    }
                    return Ok(());
                },
                Err(err) => {
                    proof {
                        if s.len() >= 4 && !at_end_marker(s, byte_order) {
                            assert(s.len() < option_size(s, byte_order));
                        }
                        assert(parse_options(s, byte_order) is None);
                    }
                    return Err(err);
                },
            };
            let padded_length = pad_length_to_32_bytes(length as usize);
            let mut value = match reader.read_exact(padded_length) {
                Ok(v) => v,
                Err(err) => {
                    proof {
                        assert(s.len() < option_size(s, byte_order));
                        assert(parse_options(s, byte_order) is None);
                    }
                    return Err(OptionParseError::IO(err));
                },
            };
            value.truncate(length as usize);
            let option = BlockOption { code, length, pen, value };
            let ghost ov = option@;
            let ghost prev = self@;
            self.0.push(option);
            assert(self@ =~= prev + seq![ov]);
            proof {
                let n = option_size(s, byte_order);
                let h: int = n - padded(length as int);
                assert(ov == option_at(s, byte_order)) by {
                    reveal(option_at);
                    assert(ov.value =~= s.subrange(h, h + length));
                }
                assert(reader.rest() =~= s.skip(n));
                assert(s.skip(n) =~= s0.skip(used + n));
                assert(self@ =~= old(self)@ + (read + seq![ov]));
                match parse_options(s.skip(n), byte_order) {
                    Some((os, m)) => {
                        assert(read + (seq![ov] + os) =~= (read + seq![ov]) + os);
                    },
                    None => {},
                }
                read = read + seq![ov];
                used = used + n;
            }
        }
    }

    /// Reads an options list from the stream.
    pub fn read<B: ByteOrder>(reader: &mut ByteReader, byte_order: B) -> (r: Result<
        Self,
        OptionParseError,
    >)
        ensures
            match parse_options(old(reader).rest(), byte_order.order()) {
                Some((os, n)) => r matches Ok(o) && o@ == os && final(reader).rest() == old(reader).rest().skip(n as int),
                None => r == Err::<BlockOptions, OptionParseError>(
                    OptionParseError::IO(IoError::UnexpectedEof),
                ),
            },
    {
        let mut options = BlockOptions(Vec::new());
        assert(options@ =~= Seq::<BlockOptionView>::empty());
        match options.read_in(reader, byte_order.endianness()) {
            Ok(()) => {
                assert(options@ =~= Seq::<BlockOptionView>::empty() + options@);
                Ok(options)
            },
            Err(err) => Err(err),
        }
    }

    /// Reads an options list from the stream; an empty list is `None`.
    pub fn read_option(reader: &mut ByteReader, byte_order: Endianness) -> (r: Result<
        Option<Self>,
        OptionParseError,
    >)
        ensures
            match parse_options(old(reader).rest(), byte_order) {
                Some((os, n)) => r matches Ok(o) && options_view(o) == (if os.len() == 0 {
                    None
                } else {
                    Some(os)
                }) && final(reader).rest() == old(reader).rest().skip(n as int),
                None => r == Err::<Option<BlockOptions>, OptionParseError>(
                    OptionParseError::IO(IoError::UnexpectedEof),
                ),
            },
    {
        match Self::read(reader, byte_order) {
            Ok(options) => {
                if options.0.len() == 0 {
                    Ok(None)
                } else {
                    Ok(Some(options))
                }
            },
            Err(err) => Err(err),
        }
    }

    /// Appends the list and its end marker to `writer`.
    pub fn write<B: ByteOrder>(&self, writer: &mut Vec<u8>, byte_order: B) -> (r: Result<
        (),
        IoError,
    >)
        ensures
            r is Ok,
            final(writer)@ == old(writer)@ + options_wire(self@, byte_order.order()),
    {
        let e = byte_order.endianness();
        let mut i: usize = 0;
        assert(self@.skip(0) =~= self@);
        while i < self.0.len()
            invariant
                i <= self@.len(),
                self@.len() == self.0@.len(),
                old(writer)@ + options_wire(self@, e) == writer@ + options_wire(
                    self@.skip(i as int),
                    e,
                ),
            decreases self.0@.len() - i,
        {
            let ghost before = writer@;
            write_option(writer, &self.0[i], e);
            proof {
                let rest = self@.skip(i as int);
                assert(rest[0] == self@[i as int]);
                assert(rest.skip(1) =~= self@.skip(i + 1));
                assert(options_wire(rest, e) == option_wire(rest[0], e) + options_wire(
                    rest.skip(1),
                    e,
                ));
                assert(before + options_wire(rest, e) =~= writer@ + options_wire(
                    self@.skip(i + 1),
                    e,
                ));
            }
            i = i + 1;
        }
        crate::byte_order::write_u16(writer, 0, e);
        crate::byte_order::write_u16(writer, 0, e);
        proof {
            assert(self@.skip(i as int) =~= Seq::<BlockOptionView>::empty());
        }
        assert(writer@ =~= old(writer)@ + options_wire(self@, e));
        Ok(())
    }
}

/// Appends the bytes of one option to `writer`.
fn write_option(writer: &mut Vec<u8>, option: &BlockOption, e: Endianness)
    ensures
        final(writer)@ == old(writer)@ + option_wire(option@, e),
{
    reveal(option_wire);
    crate::byte_order::write_u16(writer, option.code, e);
    crate::byte_order::write_u16(writer, option.length, e);
    match option.pen {
        Some(pen) => crate::byte_order::write_u32(writer, pen, e),
        None => {},
    }
    crate::stream::append_slice(writer, option.value.as_slice());
    let padding = option.padding_length();
    push_zeros(writer, padding);
    assert(writer@ =~= old(writer)@ + option_wire(option@, e));
}

/// Appends `n` zero bytes to `writer`.
fn push_zeros(writer: &mut Vec<u8>, n: usize)
    ensures
        final(writer)@ == old(writer)@ + zeros(n as int),
{
    let mut k: usize = 0;
    while k < n
        invariant
            k <= n,
            writer@ == old(writer)@ + zeros(k as int),
        decreases n - k,
    {
        writer.push(0u8);
        k = k + 1;
        assert(writer@ =~= old(writer)@ + zeros(k as int));
    }
}

/// One valid option at the front of a stream reads back as itself, and
/// takes exactly its own bytes.
proof fn lemma_option_round_trip(o: BlockOptionView, e: Endianness, after: Seq<u8>)
    requires
        valid_option(o),
    ensures
        (option_wire(o, e) + after).len() >= 4,
        !at_end_marker(option_wire(o, e) + after, e),
        option_size(option_wire(o, e) + after, e) == option_wire(o, e).len(),
        option_at(option_wire(o, e) + after, e) == o,
        (option_wire(o, e) + after).skip(option_wire(o, e).len() as int) == after,
{
    reveal(option_wire);
    reveal(option_at);
    let ow = option_wire(o, e);
    let s = ow + after;
    let pen_bytes: Seq<u8> = match o.pen {
        Some(p) => bytes32(p, e),
        None => Seq::empty(),
    };
    let h: int = if is_custom_code(o.code) {
        8
    } else {
        4
    };
    crate::byte_order::lemma_uint16_of_bytes16(o.code, e);
    crate::byte_order::lemma_uint16_of_bytes16(o.length, e);
    match o.pen {
        Some(p) => crate::byte_order::lemma_uint32_of_bytes32(p, e),
        None => {},
    }
    assert(pen_bytes.len() == h - 4);
    assert(ow =~= bytes16(o.code, e) + bytes16(o.length, e) + pen_bytes + o.value + zeros(
        padded(o.length as int) - o.length,
    ));
    assert(s.subrange(0, 2) =~= bytes16(o.code, e));
    assert(s.subrange(2, 4) =~= bytes16(o.length, e));
    if is_custom_code(o.code) {
        assert(s.subrange(4, 8) =~= pen_bytes);
    }
    assert(s.subrange(h, h + o.length) =~= o.value);
    assert(s.skip(ow.len() as int) =~= after);
}

/// One step of `parse_options` on an option that fits in the stream.
proof fn lemma_parse_step(s: Seq<u8>, e: Endianness)
    requires
        s.len() >= 4,
        !at_end_marker(s, e),
        s.len() >= option_size(s, e),
    ensures
        parse_options(s, e) == match parse_options(s.skip(option_size(s, e)), e) {
            Some((rest, m)) => Some(
                (seq![option_at(s, e)] + rest, (option_size(s, e) + m) as nat),
            ),
            None => None,
        },
{
}

/// The end marker reads as the end of the list.
proof fn lemma_end_marker_round_trip(e: Endianness, tail: Seq<u8>)
    ensures
        parse_options(options_wire(Seq::empty(), e) + tail, e) == Some(
            (Seq::<BlockOptionView>::empty(), 4nat),
        ),
        options_wire(Seq::empty(), e).len() == 4,
{
    let s = options_wire(Seq::empty(), e) + tail;
    crate::byte_order::lemma_uint16_of_bytes16(0, e);
    assert(s.subrange(0, 2) =~= bytes16(0, e));
    assert(s.subrange(2, 4) =~= bytes16(0, e));
}

/// Reading the bytes of an options list gives the list back, for lists of
/// valid options, the empty list included, whatever follows the list.
pub proof fn lemma_options_round_trip(os: Seq<BlockOptionView>, e: Endianness, tail: Seq<u8>)
    requires
        forall|i: int| 0 <= i < os.len() ==> valid_option(#[trigger] os[i]),
    ensures
        parse_options(options_wire(os, e) + tail, e) == Some(
            (os, options_wire(os, e).len()),
        ),
    decreases os.len(),
{
    let w = options_wire(os, e);
    let s = w + tail;
    if os.len() == 0 {
        lemma_end_marker_round_trip(e, tail);
        assert(os =~= Seq::<BlockOptionView>::empty());
    } else {
        let o = os[0];
        let rest = os.skip(1);
        assert(valid_option(o));
        assert forall|i: int| 0 <= i < rest.len() implies valid_option(#[trigger] rest[i]) by {
            assert(rest[i] == os[i + 1]);
        }
        lemma_options_round_trip(rest, e, tail);
        let after = options_wire(rest, e) + tail;
        lemma_option_round_trip(o, e, after);
        assert(w == option_wire(o, e) + options_wire(rest, e));
        assert(s =~= option_wire(o, e) + after);
        lemma_parse_step(s, e);
        assert(seq![o] + rest =~= os);
    }
}

/// A list of options written out and read back is the same list: `read`
/// after `write` gives every option back, in order, for lists of valid
/// options (the empty list included).
pub proof fn lemma_block_options_read_write(os: Seq<BlockOptionView>, e: Endianness)
    requires
        forall|i: int| 0 <= i < os.len() ==> valid_option(#[trigger] os[i]),
    ensures
        read_options_result(options_wire(os, e), e) == Ok::<
            Seq<BlockOptionView>,
            OptionParseError,
        >(os),
        options_size(options_wire(os, e), e) == options_wire(os, e).len(),
{
    lemma_options_round_trip(os, e, Seq::empty());
    assert(options_wire(os, e) + Seq::<u8>::empty() =~= options_wire(os, e));
}

/// A copy of the options of a block.
pub fn duplicate_options(o: &Option<BlockOptions>) -> (r: Option<BlockOptions>)
    ensures
        options_view(r) == options_view(*o),
{
    match o {
        Some(b) => Some(b.duplicate()),
        None => None,
    }
}

} // verus!
