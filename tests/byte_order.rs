use rusty_pcap::byte_order::{
    write_u16, write_u32, BigEndian, ByteOrder, Endianness, LittleEndian, ReadExt, WriteExt,
};
use rusty_pcap::stream::{ByteReader, PeakableReader};

#[test]
fn test_big_endian() {
    let bytes: [u8; 2] = [0x12, 0x34];
    assert_eq!(BigEndian.u16_from_bytes(bytes), 0x1234);
    let bytes: [u8; 4] = [0x12, 0x34, 0x56, 0x78];
    assert_eq!(BigEndian.u32_from_bytes(bytes), 0x12345678);
}

#[test]
fn test_little_endian() {
    let bytes: [u8; 2] = [0x34, 0x12];
    assert_eq!(LittleEndian.u16_from_bytes(bytes), 0x1234);
    let bytes: [u8; 4] = [0x78, 0x56, 0x34, 0x12];
    assert_eq!(LittleEndian.u32_from_bytes(bytes), 0x12345678);
}

#[test]
fn to_bytes_in_both_orders() {
    assert_eq!(BigEndian.u16_to_bytes(0x1234), [0x12, 0x34]);
    assert_eq!(LittleEndian.u16_to_bytes(0x1234), [0x34, 0x12]);
    assert_eq!(BigEndian.u32_to_bytes(0x12345678), [0x12, 0x34, 0x56, 0x78]);
    assert_eq!(LittleEndian.u32_to_bytes(0x12345678), [0x78, 0x56, 0x34, 0x12]);
    assert_eq!(Endianness::BigEndian.u32_to_bytes(7), [0, 0, 0, 7]);
}

#[test]
fn u64_from_bytes_in_both_orders() {
    let b = [1u8, 2, 3, 4, 5, 6, 7, 8];
    assert_eq!(BigEndian.u64_from_bytes(b), 0x0102030405060708);
    assert_eq!(LittleEndian.u64_from_bytes(b), 0x0807060504030201);
}

#[test]
fn try_from_slice_reports_size() {
    assert_eq!(Endianness::LittleEndian.try_u32_from_bytes(&[1, 0, 0, 0]).unwrap(), 1);
    let err = Endianness::BigEndian.try_u32_from_bytes(&[1, 2, 3]).unwrap_err();
    assert_eq!(err.name, "u32");
    assert_eq!(err.expected, 4);
    assert_eq!(err.got, 3);
    let err = Endianness::BigEndian.try_u16_from_bytes(&[1, 2, 3]).unwrap_err();
    assert_eq!(err.expected, 2);
    assert_eq!(err.got, 3);
    assert_eq!(Endianness::BigEndian.try_u16_from_bytes(&[1, 2]).unwrap(), 0x0102);
}

#[test]
fn writes_append_encoded_values() {
    let mut v = vec![9u8];
    write_u16(&mut v, 0x0102, Endianness::LittleEndian);
    write_u32(&mut v, 0x0a0b0c0d, Endianness::BigEndian);
    assert_eq!(v, vec![9, 2, 1, 0x0a, 0x0b, 0x0c, 0x0d]);
}

#[test]
fn default_endianness_is_little() {
    assert_eq!(Endianness::default(), Endianness::LittleEndian);
}

#[test]
fn test_peak_reader() {
    let data = b"Hello, world!";

    let mut reader = PeakableReader::new(ByteReader::new(data.to_vec()), 5).unwrap();
    let peak = reader.peak().unwrap();
    assert_eq!(peak, b"Hello");

    let mut buffer = [0u8; 5];
    let n = reader.read(&mut buffer);
    assert_eq!(n, 5);

    assert_eq!(&buffer, b"Hello");

    let n = reader.read(&mut buffer);
    assert_eq!(n, 5);
    assert_eq!(&buffer, b", wor");
}

#[test]
fn peekable_reader_gives_back_unread_bytes() {
    let mut reader = PeakableReader::new(ByteReader::new(b"abcdef".to_vec()), 4).unwrap();
    let mut two = [0u8; 2];
    assert_eq!(reader.read(&mut two), 2);
    assert_eq!(&two, b"ab");
    assert_eq!(reader.peak().unwrap(), b"cd");
    let mut inner = reader.into_inner();
    assert_eq!(inner.read_all(), b"cdef".to_vec());
}

#[test]
fn peek_of_short_stream() {
    let reader = PeakableReader::new(ByteReader::new(vec![1, 2]), 4).unwrap();
    assert_eq!(reader.peak().unwrap(), &[1, 2]);
}

#[test]
fn read_exact_past_end_is_eof() {
    let mut r = ByteReader::new(vec![1, 2, 3]);
    assert_eq!(r.read_exact(2).unwrap(), vec![1, 2]);
    assert_eq!(r.remaining(), 1);
    assert!(r.read_exact(2).is_err());
    assert_eq!(r.remaining(), 0);
}

#[test]
fn read_and_write_extensions() {
    let mut out: Vec<u8> = Vec::new();
    WriteExt::write_u16(&mut out, 0xabcd, BigEndian).unwrap();
    WriteExt::write_u32(&mut out, 0x01020304, LittleEndian).unwrap();
    assert_eq!(out, vec![0xab, 0xcd, 4, 3, 2, 1]);
    let mut r = ByteReader::new(out);
    assert_eq!(r.read_u16(BigEndian).unwrap(), 0xabcd);
    assert_eq!(r.read_u32(Endianness::LittleEndian).unwrap(), 0x01020304);
    assert!(r.read_u16(BigEndian).is_err());
}

#[test]
fn zero_size_peek_still_reads_stream() {
    let mut reader = PeakableReader::new(ByteReader::new(b"abc".to_vec()), 0).unwrap();
    assert_eq!(reader.peak().unwrap(), b"");
    let mut buf = [0u8; 2];
    assert_eq!(reader.read(&mut buf), 2);
    assert_eq!(&buf, b"ab");
    assert_eq!(reader.read(&mut buf), 1);
    assert_eq!(buf[0], b'c');
    assert_eq!(reader.read(&mut buf), 0);
}

#[test]
fn size_error_names_field() {
    let err = Endianness::LittleEndian.try_u16_from_bytes(&[1]).unwrap_err();
    assert_eq!(err.name, "u16");
}
