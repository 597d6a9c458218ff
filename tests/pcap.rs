use chrono::{TimeZone, Utc};
use rusty_pcap::byte_order::Endianness;
use rusty_pcap::link_type::{InvalidLinkType, LinkType};
use rusty_pcap::pcap::file_header::{MagicNumber, MagicNumberAndEndianness, PcapFileHeader};
use rusty_pcap::pcap::packet_header::{PacketHeader, PacketTimestamp};
use rusty_pcap::pcap::reader::SyncPcapReader;
use rusty_pcap::pcap::writer::{NewPacketHeader, SeeklessPcapWriter, SyncPcapWriter};
use rusty_pcap::pcap::PcapParseError;
use rusty_pcap::stream::{ByteReader, IoError};
use rusty_pcap::{PcapFileType, Version};

fn to16(v: &[u8]) -> [u8; 16] {
    v.try_into().unwrap()
}

fn le_header(snap: u32) -> PcapFileHeader {
    PcapFileHeader {
        magic_number_and_endianness: MagicNumberAndEndianness {
            magic_number: MagicNumber::Microsecond,
            endianness: Endianness::LittleEndian,
        },
        version: Version::pcap_version_2_4(),
        timezone: 0,
        sig_figs: 0,
        snap_length: snap,
        link_type: LinkType::Ethernet,
    }
}

fn one_packet_pcap() -> Vec<u8> {
    let mut v = vec![0xd4, 0xc3, 0xb2, 0xa1, 2, 0, 4, 0];
    v.extend_from_slice(&[0, 0, 0, 0, 0, 0, 0, 0]);
    v.extend_from_slice(&[0xff, 0xff, 0, 0, 1, 0, 0, 0]);
    v.extend_from_slice(&[1, 0, 0, 0, 2, 0, 0, 0, 4, 0, 0, 0, 4, 0, 0, 0]);
    v.extend_from_slice(&[0xde, 0xad, 0xbe, 0xef]);
    v
}

#[test]
fn test_magic_number_and_endianness() {
    let magic_bytes = [0xa1, 0xb2, 0xc3, 0xd4];
    let magic = MagicNumberAndEndianness::try_from_bytes(magic_bytes).unwrap();
    assert_eq!(magic.magic_number, MagicNumber::Microsecond);
    assert_eq!(magic.endianness, Endianness::BigEndian);
}

#[test]
fn all_four_magics() {
    let cases = [
        ([0xd4, 0xc3, 0xb2, 0xa1], MagicNumber::Microsecond, Endianness::LittleEndian),
        ([0xa1, 0xb2, 0xc3, 0xd4], MagicNumber::Microsecond, Endianness::BigEndian),
        ([0x4d, 0x3c, 0xb2, 0xa1], MagicNumber::Nanosecond, Endianness::LittleEndian),
        ([0xa1, 0xb2, 0x3c, 0x4d], MagicNumber::Nanosecond, Endianness::BigEndian),
    ];
    for (bytes, m, e) in cases {
        let got = MagicNumberAndEndianness::try_from_bytes(bytes).unwrap();
        assert_eq!(got.magic_number, m);
        assert_eq!(got.endianness, e);
        assert_eq!(PcapFileType::from_magic(bytes), Some(PcapFileType::Pcap));
    }
    assert_eq!(PcapFileType::from_magic([0x0a, 0x0d, 0x0d, 0x0a]), Some(PcapFileType::PcapNg));
    assert_eq!(PcapFileType::from_magic([1, 2, 3, 4]), None);
    assert_eq!(
        MagicNumberAndEndianness::try_from_bytes([1, 2, 3, 4]),
        Err(PcapParseError::InvalidMagicNumber(Some([1, 2, 3, 4])))
    );
    assert_eq!(
        MagicNumberAndEndianness::try_from_slice(&[1, 2]),
        Err(PcapParseError::InvalidMagicNumber(None))
    );
}

#[test]
fn write_test() {
    let specific_datetime_utc = Utc.with_ymd_and_hms(2025, 11, 27, 10, 30, 0).unwrap();

    let duration_since_epoch =
        specific_datetime_utc.signed_duration_since(Utc.timestamp_opt(0, 0).unwrap());

    let as_secs = duration_since_epoch.num_seconds() as u32;
    let num_nanos = duration_since_epoch.subsec_nanos() as u32;
    let header = PacketHeader {
        timestamp: PacketTimestamp { seconds: as_secs, usec: num_nanos },
        include_len: 100,
        orig_len: 100,
    };
    let mut target: Vec<u8> = Vec::new();
    header.write(&mut target, Endianness::BigEndian, &Version::pcap_version_2_4());
    assert_eq!(target.len(), 16);

    let result =
        PacketHeader::parse_bytes(&to16(&target), Endianness::BigEndian, &Version::pcap_version_2_4())
            .unwrap();
    assert_eq!(result, header);
}

#[test]
fn test_len_order() {
    let packet_header = PacketHeader {
        timestamp: PacketTimestamp::default(),
        include_len: 1500,
        orig_len: 2000,
    };
    let mut buffer: Vec<u8> = Vec::new();
    packet_header.write(&mut buffer, Endianness::LittleEndian, &Version::pcap_version_2_4());
    let buffer = to16(&buffer);
    let parsed_header =
        PacketHeader::parse_bytes(&buffer, Endianness::LittleEndian, &Version::pcap_version_2_4())
            .unwrap();
    assert_eq!(parsed_header.include_len, 1500);
    assert_eq!(parsed_header.orig_len, 2000);

    let parsed_header_v2_2 =
        PacketHeader::parse_bytes(&buffer, Endianness::LittleEndian, &Version { major: 2, minor: 2 })
            .unwrap();
    assert_eq!(parsed_header_v2_2.orig_len, 1500);
    assert_eq!(parsed_header_v2_2.include_len, 2000);
}

#[test]
fn test_len_order_older() {
    let packet_header = PacketHeader {
        timestamp: PacketTimestamp::default(),
        include_len: 1500,
        orig_len: 2000,
    };
    let version = Version { major: 2, minor: 2 };
    let mut buffer: Vec<u8> = Vec::new();
    packet_header.write(&mut buffer, Endianness::LittleEndian, &version);
    let buffer = to16(&buffer);
    let parsed_header =
        PacketHeader::parse_bytes(&buffer, Endianness::LittleEndian, &Version::pcap_version_2_4())
            .unwrap();
    assert_eq!(parsed_header.include_len, 2000);
    assert_eq!(parsed_header.orig_len, 1500);

    let parsed_header_v2_2 =
        PacketHeader::parse_bytes(&buffer, Endianness::LittleEndian, &version).unwrap();
    assert_eq!(parsed_header_v2_2.include_len, 1500);
    assert_eq!(parsed_header_v2_2.orig_len, 2000);
}

#[test]
fn version_gating_swaps_at_2_3() {
    let b = to16(&[0, 0, 0, 0, 0, 0, 0, 0, 1, 0, 0, 0, 2, 0, 0, 0]);
    let old = PacketHeader::parse_bytes(&b, Endianness::LittleEndian, &Version { major: 2, minor: 2 })
        .unwrap();
    let new = PacketHeader::parse_bytes(&b, Endianness::LittleEndian, &Version { major: 2, minor: 4 })
        .unwrap();
    assert_eq!(old.orig_len, new.include_len);
    assert_eq!(old.include_len, new.orig_len);
    assert_eq!(new.include_len, 1);
    let at = PacketHeader::parse_bytes(&b, Endianness::LittleEndian, &Version::pcap_version_2_3())
        .unwrap();
    assert_eq!(at, new);
    assert!(Version { major: 1, minor: 9 }.is_before_2_3());
    assert!(!Version { major: 3, minor: 0 }.is_before_2_3());
}

#[test]
fn fixed_order_parsers() {
    let b = to16(&[0, 0, 0, 1, 0, 0, 0, 2, 0, 0, 0, 3, 0, 0, 0, 4]);
    let h = PacketHeader::parse_be_bytes(&b).unwrap();
    assert_eq!(h, PacketHeader::new(PacketTimestamp { seconds: 1, usec: 2 }, 3, 4));
    let l = PacketHeader::parse_le_bytes(&b).unwrap();
    assert_eq!(l.timestamp.seconds, 0x01000000);
    let mut r = ByteReader::new(b.to_vec());
    assert_eq!(PacketHeader::read_big_endian(&mut r).unwrap(), h);
    let mut r = ByteReader::new(b[..10].to_vec());
    assert_eq!(PacketHeader::read_little_endian(&mut r), Err(PcapParseError::IO(IoError::UnexpectedEof)));
}

#[test]
fn one_packet_then_none() {
    let mut reader = SyncPcapReader::new(ByteReader::new(one_packet_pcap())).unwrap();
    assert_eq!(reader.file_header().snap_length, 65535);
    assert_eq!(*reader.version(), Version { major: 2, minor: 4 });
    let (header, data) = reader.next_packet().unwrap().unwrap();
    assert_eq!(header.include_len, 4);
    assert_eq!(header.timestamp, PacketTimestamp { seconds: 1, usec: 2 });
    assert_eq!(data, &[0xde, 0xad, 0xbe, 0xef]);
    assert!(reader.next_packet().unwrap().is_none());
}

#[test]
fn file_header_fields_and_errors() {
    let bytes: [u8; 24] = one_packet_pcap()[..24].try_into().unwrap();
    let h = PcapFileHeader::try_from_bytes(&bytes).unwrap();
    assert_eq!(h, le_header(65535));
    let mut bad = bytes;
    bad[20] = 0xff;
    bad[21] = 0xff;
    assert_eq!(
        PcapFileHeader::try_from_bytes(&bad),
        Err(PcapParseError::InvalidLinkType(InvalidLinkType(0xffff)))
    );
    let mut wide = bytes;
    wide[20] = 1;
    wide[22] = 1;
    assert_eq!(
        PcapFileHeader::try_from_bytes(&wide),
        Err(PcapParseError::InvalidLinkType(InvalidLinkType(0x0001_0001)))
    );
    let mut bad = bytes;
    bad[0] = 0;
    assert_eq!(
        PcapFileHeader::try_from_bytes(&bad),
        Err(PcapParseError::InvalidMagicNumber(Some([0, 0xc3, 0xb2, 0xa1])))
    );
    let mut short = ByteReader::new(bytes[..20].to_vec());
    assert_eq!(PcapFileHeader::read(&mut short), Err(PcapParseError::IO(IoError::UnexpectedEof)));
}

#[test]
fn snap_length_is_enforced_before_reading() {
    let mut v = one_packet_pcap();
    v[16] = 2;
    v[17] = 0;
    let mut reader = SyncPcapReader::new(ByteReader::new(v)).unwrap();
    assert_eq!(
        reader.next_packet().unwrap_err(),
        PcapParseError::InvalidPacketLength { snap_length: 2, incl_len: 4 }
    );
}

#[test]
fn truncated_packet_is_io_error() {
    let v = one_packet_pcap();
    let mut reader = SyncPcapReader::new(ByteReader::new(v[..24 + 10].to_vec())).unwrap();
    assert_eq!(reader.next_packet().unwrap_err(), PcapParseError::IO(IoError::UnexpectedEof));
    let mut reader = SyncPcapReader::new(ByteReader::new(v[..24 + 18].to_vec())).unwrap();
    assert_eq!(reader.next_packet().unwrap_err(), PcapParseError::IO(IoError::UnexpectedEof));
}

#[test]
fn seekless_round_trip() {
    let header = le_header(65535);
    let mut writer = SeeklessPcapWriter::new(Vec::new(), header).unwrap();
    let ts = PacketTimestamp { seconds: 1_764_239_400, usec: 5 };
    writer.write_header(NewPacketHeader { timestamp: ts, orig_len: None }, &[1, 2, 3]).unwrap();
    writer
        .write_header(NewPacketHeader { timestamp: ts, orig_len: Some(9) }, &[4, 5])
        .unwrap();
    let bytes = writer.finish().unwrap();
    assert_eq!(bytes.len(), 24 + 16 + 3 + 16 + 2);
    let mut reader = SyncPcapReader::new(ByteReader::new(bytes)).unwrap();
    assert_eq!(*reader.file_header(), header);
    let (h, d) = reader.next_packet().unwrap().unwrap();
    assert_eq!(h, PacketHeader::new(ts, 3, 3));
    assert_eq!(d, &[1, 2, 3]);
    let (h, d) = reader.next_packet().unwrap().unwrap();
    assert_eq!(h, PacketHeader::new(ts, 2, 9));
    assert_eq!(d, &[4, 5]);
    assert!(reader.next_packet().unwrap().is_none());
}

#[test]
fn seekless_refuses_oversized_packet() {
    let mut writer = SeeklessPcapWriter::new(Vec::new(), le_header(2)).unwrap();
    let r = writer.write_header(NewPacketHeader::default(), &[1, 2, 3]);
    assert_eq!(r, Err(IoError::InvalidInput));
    assert_eq!(writer.finish().unwrap().len(), 24);
}

#[test]
fn seekable_writer_enlarges_snap_length() {
    let mut writer = SyncPcapWriter::new(Vec::new(), le_header(2)).unwrap();
    writer.write_header(NewPacketHeader::default(), &[1, 2, 3, 4, 5]).unwrap();
    writer.write_header(NewPacketHeader::default(), &[6]).unwrap();
    let bytes = writer.finish().unwrap();
    let mut reader = SyncPcapReader::new(ByteReader::new(bytes)).unwrap();
    assert_eq!(reader.file_header().snap_length, 5);
    assert_eq!(reader.next_packet().unwrap().unwrap().1, &[1, 2, 3, 4, 5]);
    assert_eq!(reader.next_packet().unwrap().unwrap().1, &[6]);
    assert!(reader.next_packet().unwrap().is_none());
}

#[test]
fn seekable_writer_keeps_header_when_packets_fit() {
    let mut writer = SyncPcapWriter::new(vec![], le_header(10)).unwrap();
    writer.write_header(NewPacketHeader::default(), &[1]).unwrap();
    let bytes = writer.finish().unwrap();
    let mut expected = Vec::new();
    le_header(10).write(&mut expected);
    assert_eq!(&bytes[..24], &expected[..]);
}

#[test]
fn big_endian_nanosecond_round_trip() {
    let header = PcapFileHeader {
        magic_number_and_endianness: MagicNumberAndEndianness {
            magic_number: MagicNumber::Nanosecond,
            endianness: Endianness::BigEndian,
        },
        version: Version { major: 2, minor: 2 },
        timezone: 7,
        sig_figs: 3,
        snap_length: 100,
        link_type: LinkType::Raw,
    };
    let mut bytes = Vec::new();
    header.write(&mut bytes);
    assert_eq!(&bytes[..4], &[0xa1, 0xb2, 0x3c, 0x4d]);
    let mut writer = SeeklessPcapWriter::new(Vec::new(), header).unwrap();
    writer
        .write_header(
            NewPacketHeader { timestamp: PacketTimestamp { seconds: 3, usec: 4 }, orig_len: Some(50) },
            &[7; 10],
        )
        .unwrap();
    let mut reader = SyncPcapReader::new(ByteReader::new(writer.finish().unwrap())).unwrap();
    assert_eq!(*reader.file_header(), header);
    let (h, d) = reader.next_packet().unwrap().unwrap();
    assert_eq!((h.include_len, h.orig_len), (10, 50));
    assert_eq!(d, &[7; 10]);
}

#[test]
fn link_type_values() {
    assert_eq!(LinkType::try_from_u16(1), Ok(LinkType::Ethernet));
    assert_eq!(LinkType::Ethernet.value(), 1);
    assert_eq!(LinkType::try_from_u16(289), Ok(LinkType::AtscAlp));
    assert_eq!(LinkType::try_from_u16(2), Err(InvalidLinkType(2)));
    assert_eq!(LinkType::try_from_u32(0x10001), Err(InvalidLinkType(0x10001)));
    assert_eq!(LinkType::try_from_u32(113), Ok(LinkType::LinuxSll));
}

#[test]
fn timestamp_as_datetime() {
    let t = PacketTimestamp { seconds: 1_764_239_400, usec: 250_000 };
    let dt = t.to_chrono_naive_datetime(MagicNumber::Microsecond).unwrap();
    let expected = Utc.with_ymd_and_hms(2025, 11, 27, 10, 30, 0).unwrap().naive_utc()
        + chrono::Duration::milliseconds(250);
    assert_eq!(dt, expected);
    assert_eq!(t.nanos(MagicNumber::Microsecond), Some(250_000_000));
    let n = PacketTimestamp { seconds: 0, usec: 2_500_000_000 };
    assert!(n.to_chrono_naive_datetime(MagicNumber::Nanosecond).is_none());
    let big = PacketTimestamp { seconds: 0, usec: 5_000_000 };
    assert_eq!(big.nanos(MagicNumber::Microsecond), None);
    assert!(big.to_chrono_naive_datetime(MagicNumber::Microsecond).is_none());
}
