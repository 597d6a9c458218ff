//! Byte order handling for pcap and pcap-ng files.
//!
//! Every multi-byte field of both formats is an unsigned integer stored in
//! one of two byte orders. The spec functions here say what a field holds
//! (`uint16`, `uint32`, `uint64`) and how a value is laid out (`bytes16`,
//! `bytes32`); the executable conversions are proved against them.
use vstd::prelude::*;

verus! {

/// The byte order of every multi-byte integer of a file or a section.
#[derive(Debug, Clone, Copy, PartialEq, Eq, Structural)]
pub enum Endianness {
    /// Least significant byte first.
    LittleEndian,
    /// Most significant byte first.
    BigEndian,
}

/// The value of a 2-byte field.
pub open spec fn uint16(b: Seq<u8>, e: Endianness) -> u16 {
    match e {
        Endianness::LittleEndian => (b[0] + 256 * b[1]) as u16,
        Endianness::BigEndian => (256 * b[0] + b[1]) as u16,
    }
}

/// The value of a 4-byte field.
pub open spec fn uint32(b: Seq<u8>, e: Endianness) -> u32 {
    match e {
        Endianness::LittleEndian => (b[0] + 256 * b[1] + 65536 * b[2] + 16777216 * b[3]) as u32,
        Endianness::BigEndian => (16777216 * b[0] + 65536 * b[1] + 256 * b[2] + b[3]) as u32,
    }
}

/// The value of an 8-byte field: two 4-byte halves, the less significant
/// one first in little-endian order.
pub open spec fn uint64(b: Seq<u8>, e: Endianness) -> u64 {
    match e {
        Endianness::LittleEndian => (uint32(b.subrange(0, 4), e) + 4294967296 * uint32(
            b.subrange(4, 8),
            e,
        )) as u64,
        Endianness::BigEndian => (4294967296 * uint32(b.subrange(0, 4), e) + uint32(
            b.subrange(4, 8),
            e,
        )) as u64,
    }
}

/// The two bytes that store `v`.
pub open spec fn bytes16(v: u16, e: Endianness) -> Seq<u8> {
    match e {
        Endianness::LittleEndian => seq![(v % 256) as u8, (v / 256) as u8],
        Endianness::BigEndian => seq![(v / 256) as u8, (v % 256) as u8],
    }
}

/// The four bytes that store `v`.
pub open spec fn bytes32(v: u32, e: Endianness) -> Seq<u8> {
    match e {
        Endianness::LittleEndian => seq![
            (v % 256) as u8,
            ((v / 256) % 256) as u8,
            ((v / 65536) % 256) as u8,
            (v / 16777216) as u8,
        ],
        Endianness::BigEndian => seq![
            (v / 16777216) as u8,
            ((v / 65536) % 256) as u8,
            ((v / 256) % 256) as u8,
            (v % 256) as u8,
        ],
    }
}

/// Decoding the bytes of a 2-byte value gives the value back.
pub proof fn lemma_uint16_of_bytes16(v: u16, e: Endianness)
    ensures
        bytes16(v, e).len() == 2,
        uint16(bytes16(v, e), e) == v,
{
    let b = bytes16(v, e);
    assert(v == 256 * (v / 256) + v % 256) by (nonlinear_arith);
    assert(b[0] + 256 * b[1] == v || 256 * b[0] + b[1] == v);
}

/// Decoding the bytes of a 4-byte value gives the value back.
pub proof fn lemma_uint32_of_bytes32(v: u32, e: Endianness)
    ensures
        bytes32(v, e).len() == 4,
        uint32(bytes32(v, e), e) == v,
{
    let x = v as int;
    assert(x == (x % 256) + 256 * ((x / 256) % 256) + 65536 * ((x / 65536) % 256) + 16777216 * (x
        / 16777216)) by (nonlinear_arith)
        requires
            0 <= x < 4294967296,
    {
        assert(x == 256 * (x / 256) + x % 256);
        assert(x / 256 == 256 * (x / 65536) + (x / 256) % 256);
        assert(x / 65536 == 256 * (x / 16777216) + (x / 65536) % 256);
    }
}

/// A byte order known statically (`BigEndian`, `LittleEndian`) or chosen at
/// run time (`Endianness`).
pub trait ByteOrder: Copy {
    /// The byte order that `self` stands for.
    spec fn order(&self) -> Endianness;

    /// The byte order as a run-time value.
    fn endianness(self) -> (r: Endianness)
        ensures
            r == self.order(),
    ;

    /// Converts two bytes to a `u16`.
    fn u16_from_bytes(self, bytes: [u8; 2]) -> (r: u16)
        ensures
            r == uint16(bytes@, self.order()),
    ;

    /// Converts a `u16` to its two bytes.
    fn u16_to_bytes(self, value: u16) -> (r: [u8; 2])
        ensures
            r@ == bytes16(value, self.order()),
    ;

    /// Converts four bytes to a `u32`.
    fn u32_from_bytes(self, bytes: [u8; 4]) -> (r: u32)
        ensures
            r == uint32(bytes@, self.order()),
    ;

    /// Converts a `u32` to its four bytes.
    fn u32_to_bytes(self, value: u32) -> (r: [u8; 4])
        ensures
            r@ == bytes32(value, self.order()),
    ;

    /// Converts eight bytes to a `u64`.
    fn u64_from_bytes(self, bytes: [u8; 8]) -> (r: u64)
        ensures
            r == uint64(bytes@, self.order()),
    ;
}

fn le_u16(b: [u8; 2]) -> (r: u16)
    ensures
        r == uint16(b@, Endianness::LittleEndian),
{
    b[0] as u16 + 256 * b[1] as u16
}

fn be_u16(b: [u8; 2]) -> (r: u16)
    ensures
        r == uint16(b@, Endianness::BigEndian),
{
    256 * b[0] as u16 + b[1] as u16
}

fn le_u32(b: [u8; 4]) -> (r: u32)
    ensures
        r == uint32(b@, Endianness::LittleEndian),
{
    b[0] as u32 + 256 * b[1] as u32 + 65536 * b[2] as u32 + 16777216 * b[3] as u32
}

fn be_u32(b: [u8; 4]) -> (r: u32)
    ensures
        r == uint32(b@, Endianness::BigEndian),
{
    16777216 * b[0] as u32 + 65536 * b[1] as u32 + 256 * b[2] as u32 + b[3] as u32
}

fn u64_of(b: [u8; 8], e: Endianness) -> (r: u64)
    ensures
        r == uint64(b@, e),
{
    let lo = [b[0], b[1], b[2], b[3]];
    let hi = [b[4], b[5], b[6], b[7]];
    assert(lo@ =~= b@.subrange(0, 4));
    assert(hi@ =~= b@.subrange(4, 8));
    match e {
        Endianness::LittleEndian => le_u32(lo) as u64 + 4294967296 * le_u32(hi) as u64,
        Endianness::BigEndian => 4294967296 * be_u32(lo) as u64 + be_u32(hi) as u64,
    }
}

fn u16_bytes(v: u16, e: Endianness) -> (r: [u8; 2])
    ensures
        r@ == bytes16(v, e),
{
    let r = match e {
        Endianness::LittleEndian => [(v % 256) as u8, (v / 256) as u8],
        Endianness::BigEndian => [(v / 256) as u8, (v % 256) as u8],
    };
    assert(r@ =~= bytes16(v, e));
    r
}

fn u32_bytes(v: u32, e: Endianness) -> (r: [u8; 4])
    ensures
        r@ == bytes32(v, e),
{
    let r = match e {
        Endianness::LittleEndian => [
            (v % 256) as u8,
            ((v / 256) % 256) as u8,
            ((v / 65536) % 256) as u8,
            (v / 16777216) as u8,
        ],
        Endianness::BigEndian => [
            (v / 16777216) as u8,
            ((v / 65536) % 256) as u8,
            ((v / 256) % 256) as u8,
            (v % 256) as u8,
        ],
    };
    assert(r@ =~= bytes32(v, e));
    r
}

/// Most significant byte first.
#[derive(Debug, Clone, Copy, PartialEq, Eq, Structural)]
pub struct BigEndian;

impl ByteOrder for BigEndian {
    open spec fn order(&self) -> Endianness {
        Endianness::BigEndian
    }

    fn endianness(self) -> (r: Endianness) {
        Endianness::BigEndian
    }

    fn u16_from_bytes(self, bytes: [u8; 2]) -> (r: u16) {
        be_u16(bytes)
    }

    fn u16_to_bytes(self, value: u16) -> (r: [u8; 2]) {
        u16_bytes(value, Endianness::BigEndian)
    }

    fn u32_from_bytes(self, bytes: [u8; 4]) -> (r: u32) {
        be_u32(bytes)
    }

    fn u32_to_bytes(self, value: u32) -> (r: [u8; 4]) {
        u32_bytes(value, Endianness::BigEndian)
    }

    fn u64_from_bytes(self, bytes: [u8; 8]) -> (r: u64) {
        u64_of(bytes, Endianness::BigEndian)
    }
}

/// Least significant byte first.
#[derive(Debug, Clone, Copy, PartialEq, Eq, Structural)]
pub struct LittleEndian;

impl ByteOrder for LittleEndian {
    open spec fn order(&self) -> Endianness {
        Endianness::LittleEndian
    }

    fn endianness(self) -> (r: Endianness) {
        Endianness::LittleEndian
    }

    fn u16_from_bytes(self, bytes: [u8; 2]) -> (r: u16) {
        le_u16(bytes)
    }

    fn u16_to_bytes(self, value: u16) -> (r: [u8; 2]) {
        u16_bytes(value, Endianness::LittleEndian)
    }

    fn u32_from_bytes(self, bytes: [u8; 4]) -> (r: u32) {
        le_u32(bytes)
    }

    fn u32_to_bytes(self, value: u32) -> (r: [u8; 4]) {
        u32_bytes(value, Endianness::LittleEndian)
    }

    fn u64_from_bytes(self, bytes: [u8; 8]) -> (r: u64) {
        u64_of(bytes, Endianness::LittleEndian)
    }
}

impl ByteOrder for Endianness {
    open spec fn order(&self) -> Endianness {
        *self
    }

    fn endianness(self) -> (r: Endianness) {
        self
    }

    fn u16_from_bytes(self, bytes: [u8; 2]) -> (r: u16) {
        match self {
            Endianness::BigEndian => be_u16(bytes),
            Endianness::LittleEndian => le_u16(bytes),
        }
    }

    fn u16_to_bytes(self, value: u16) -> (r: [u8; 2]) {
        let r = u16_bytes(value, self);
        assert(r@ == bytes16(value, self.order()));
        r
    }

    fn u32_from_bytes(self, bytes: [u8; 4]) -> (r: u32) {
        match self {
            Endianness::BigEndian => be_u32(bytes),
            Endianness::LittleEndian => le_u32(bytes),
        }
    }

    fn u32_to_bytes(self, value: u32) -> (r: [u8; 4]) {
        let r = u32_bytes(value, self);
        assert(r@ == bytes32(value, self.order()));
        r
    }

    fn u64_from_bytes(self, bytes: [u8; 8]) -> (r: u64) {
        u64_of(bytes, self)
    }
}

impl Default for Endianness {
    fn default() -> (r: Self)
        ensures
            r == Endianness::LittleEndian,
    {
        Endianness::LittleEndian
    }
}

/// No byte order was given and none could be inferred from a block id.
#[derive(Debug, Clone, Copy, PartialEq, Eq, Structural)]
pub struct UndertminedByteOrder;

/// A fixed-width field was given a slice of the wrong length.
#[derive(Debug, Clone, Copy, PartialEq, Eq)]
pub struct UnexpectedSize {
    /// The field that was being decoded.
    pub name: &'static str,
    /// The width that the field has.
    pub expected: usize,
    /// The length of the slice that was given.
    pub got: usize,
}

impl Endianness {
    /// Decodes a 2-byte field from a slice that must hold exactly two bytes.
    pub fn try_u16_from_bytes(self, bytes: &[u8]) -> (r: Result<u16, UnexpectedSize>)
        ensures
            bytes@.len() == 2 ==> r == Ok::<u16, UnexpectedSize>(uint16(bytes@, self)),
            bytes@.len() != 2 ==> (r matches Err(err) && err.name == "u16" && err.expected == 2
                && err.got == bytes@.len()),
    {
        if bytes.len() != 2 {
            return Err(UnexpectedSize { name: "u16", expected: 2, got: bytes.len() });
        }
        Ok(self.u16_from_bytes([bytes[0], bytes[1]]))
    }

    /// Decodes a 4-byte field from a slice that must hold exactly four bytes.
    pub fn try_u32_from_bytes(self, bytes: &[u8]) -> (r: Result<u32, UnexpectedSize>)
        ensures
            bytes@.len() == 4 ==> r == Ok::<u32, UnexpectedSize>(uint32(bytes@, self)),
            bytes@.len() != 4 ==> (r matches Err(err) && err.name == "u32" && err.expected == 4
                && err.got == bytes@.len()),
    {
        if bytes.len() != 4 {
            return Err(UnexpectedSize { name: "u32", expected: 4, got: bytes.len() });
        }
        let a = [bytes[0], bytes[1], bytes[2], bytes[3]];
        assert(a@ =~= bytes@);
        Ok(self.u32_from_bytes(a))
    }
}

/// Appends the two bytes of `value` to `target`.
pub fn write_u16(target: &mut Vec<u8>, value: u16, byte_order: Endianness)
    ensures
        final(target)@ == old(target)@ + bytes16(value, byte_order),
{
    let b = u16_bytes(value, byte_order);
    target.push(b[0]);
    target.push(b[1]);
    assert(final(target)@ =~= old(target)@ + bytes16(value, byte_order));
}

/// Appends the four bytes of `value` to `target`.
pub fn write_u32(target: &mut Vec<u8>, value: u32, byte_order: Endianness)
    ensures
        final(target)@ == old(target)@ + bytes32(value, byte_order),
{
    let b = u32_bytes(value, byte_order);
    target.push(b[0]);
    target.push(b[1]);
    target.push(b[2]);
    target.push(b[3]);
    assert(final(target)@ =~= old(target)@ + bytes32(value, byte_order));
}

} // verus!

verus! {

/// Decodes the 2-byte field at `off` of `b`.
pub fn u16_at(b: &[u8], off: usize, e: Endianness) -> (r: u16)
    requires
        off + 2 <= b@.len(),
    ensures
        r == uint16(b@.subrange(off as int, off + 2), e),
{
    e.u16_from_bytes([b[off], b[off + 1]])
}

/// Decodes the 4-byte field at `off` of `b`.
pub fn u32_at(b: &[u8], off: usize, e: Endianness) -> (r: u32)
    requires
        off + 4 <= b@.len(),
    ensures
        r == uint32(b@.subrange(off as int, off + 4), e),
{
    e.u32_from_bytes([b[off], b[off + 1], b[off + 2], b[off + 3]])
}

/// Decodes the 8-byte field at `off` of `b`.
pub fn u64_at(b: &[u8], off: usize, e: Endianness) -> (r: u64)
    requires
        off + 8 <= b@.len(),
    ensures
        r == uint64(b@.subrange(off as int, off + 8), e),
{
    let a = [b[off], b[off + 1], b[off + 2], b[off + 3], b[off + 4], b[off + 5], b[off + 6], b[off
        + 7]];
    assert(a@ =~= b@.subrange(off as int, off + 8));
    e.u64_from_bytes(a)
}

} // verus!

verus! {

use crate::stream::{ByteReader, IoError};

/// Reading integers from a byte stream.
pub trait ReadExt {
    /// The bytes that have not been read yet.
    spec fn unread(&self) -> Seq<u8>;

    /// Reads a 2-byte integer.
    fn read_u16<B: ByteOrder>(&mut self, byte_order: B) -> (r: Result<u16, IoError>)
        ensures
            old(self).unread().len() >= 2 ==> r == Ok::<u16, IoError>(
                uint16(old(self).unread(), byte_order.order()),
            ) && final(self).unread() == old(self).unread().skip(2),
            old(self).unread().len() < 2 ==> r == Err::<u16, IoError>(IoError::UnexpectedEof),
    ;

    /// Reads a 4-byte integer.
    fn read_u32<B: ByteOrder>(&mut self, byte_order: B) -> (r: Result<u32, IoError>)
        ensures
            old(self).unread().len() >= 4 ==> r == Ok::<u32, IoError>(
                uint32(old(self).unread(), byte_order.order()),
            ) && final(self).unread() == old(self).unread().skip(4),
            old(self).unread().len() < 4 ==> r == Err::<u32, IoError>(IoError::UnexpectedEof),
    ;
}

impl ReadExt for ByteReader {
    open spec fn unread(&self) -> Seq<u8> {
        self.rest()
    }

    fn read_u16<B: ByteOrder>(&mut self, byte_order: B) -> (r: Result<u16, IoError>) {
        let b = match self.read_exact(2) {
            Ok(v) => v,
            Err(err) => return Err(err),
        };
        Ok(byte_order.u16_from_bytes([b[0], b[1]]))
    }

    fn read_u32<B: ByteOrder>(&mut self, byte_order: B) -> (r: Result<u32, IoError>) {
        let b = match self.read_exact(4) {
            Ok(v) => v,
            Err(err) => return Err(err),
        };
        Ok(byte_order.u32_from_bytes([b[0], b[1], b[2], b[3]]))
    }
}

/// Writing integers to a byte sink.
pub trait WriteExt {
    /// The bytes written so far.
    spec fn written(&self) -> Seq<u8>;

    /// Writes a 2-byte integer.
    fn write_u16<B: ByteOrder>(&mut self, value: u16, byte_order: B) -> (r: Result<(), IoError>)
        ensures
            r is Ok,
            final(self).written() == old(self).written() + bytes16(value, byte_order.order()),
    ;

    /// Writes a 4-byte integer.
    fn write_u32<B: ByteOrder>(&mut self, value: u32, byte_order: B) -> (r: Result<(), IoError>)
        ensures
            r is Ok,
            final(self).written() == old(self).written() + bytes32(value, byte_order.order()),
    ;
}

impl WriteExt for Vec<u8> {
    open spec fn written(&self) -> Seq<u8> {
        self@
    }

    fn write_u16<B: ByteOrder>(&mut self, value: u16, byte_order: B) -> (r: Result<(), IoError>) {
        write_u16(self, value, byte_order.endianness());
        Ok(())
    }

    fn write_u32<B: ByteOrder>(&mut self, value: u32, byte_order: B) -> (r: Result<(), IoError>) {
        write_u32(self, value, byte_order.endianness());
        Ok(())
    }
}

} // verus!
