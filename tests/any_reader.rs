use rusty_pcap::any_reader::{AnyPacketHeader, AnyPcapReaderError, SyncAnyPcapReader};
use rusty_pcap::pcap::PcapParseError;
use rusty_pcap::pcap::packet_header::{PacketHeader, PacketTimestamp};
use rusty_pcap::stream::{ByteReader, IoError};
use rusty_pcap::PcapFileType;

fn pcap_file() -> Vec<u8> {
    let mut v = vec![0xd4, 0xc3, 0xb2, 0xa1, 2, 0, 4, 0];
    v.extend_from_slice(&[0, 0, 0, 0, 0, 0, 0, 0]);
    v.extend_from_slice(&[0xff, 0xff, 0, 0, 1, 0, 0, 0]);
    v.extend_from_slice(&[1, 0, 0, 0, 2, 0, 0, 0, 4, 0, 0, 0, 4, 0, 0, 0]);
    v.extend_from_slice(&[0xde, 0xad, 0xbe, 0xef]);
    v
}

fn pcapng_file() -> Vec<u8> {
    let mut v = vec![0x0a, 0x0d, 0x0d, 0x0a, 28, 0, 0, 0, 0x4d, 0x3c, 0x2b, 0x1a, 1, 0, 0, 0];
    v.extend_from_slice(&[0xff; 8]);
    v.extend_from_slice(&[28, 0, 0, 0]);
    v.extend_from_slice(&[3, 0, 0, 0, 20, 0, 0, 0, 2, 0, 0, 0, 5, 6, 0, 0, 20, 0, 0, 0]);
    v
}

#[test]
fn any_reader_pcap() {
    let mut reader = SyncAnyPcapReader::new(ByteReader::new(pcap_file())).unwrap();
    assert_eq!(reader.file_type(), PcapFileType::Pcap);
    {
        let (header, data) = reader.next_packet().unwrap().unwrap();
        assert_eq!(
            header,
            AnyPacketHeader::Pcap(PacketHeader::new(PacketTimestamp { seconds: 1, usec: 2 }, 4, 4))
        );
        assert_eq!(header.original_length(), 4);
        assert_eq!(data.as_slice(), &[0xde, 0xad, 0xbe, 0xef]);
    }
    assert!(reader.next_packet().unwrap().is_none());
}

#[test]
fn any_reader_pcapng() {
    let mut reader = SyncAnyPcapReader::new(ByteReader::new(pcapng_file())).unwrap();
    assert_eq!(reader.file_type(), PcapFileType::PcapNg);
    {
        let (header, data) = reader.next_packet().unwrap().unwrap();
        assert_eq!(header, AnyPacketHeader::PcapNgSimple { block_length: 20, original_length: 2 });
        assert_eq!(data.as_slice(), &[5, 6]);
    }
    assert!(reader.next_packet().unwrap().is_none());
}

#[test]
fn any_reader_rejects_unknown_and_short() {
    assert_eq!(
        SyncAnyPcapReader::new(ByteReader::new(vec![1, 2, 3, 4, 5])).unwrap_err(),
        AnyPcapReaderError::InvalidPcapFormat
    );
    assert_eq!(
        SyncAnyPcapReader::new(ByteReader::new(vec![0xd4, 0xc3])).unwrap_err(),
        AnyPcapReaderError::IOError(IoError::UnexpectedEof)
    );
    let mut short = pcap_file();
    short.truncate(10);
    assert_eq!(
        SyncAnyPcapReader::new(ByteReader::new(short)).unwrap_err(),
        AnyPcapReaderError::PcapError(PcapParseError::IO(IoError::UnexpectedEof))
    );
}

#[test]
fn from_pcap_header() {
    let h = PacketHeader::new(PacketTimestamp::default(), 1, 7);
    assert_eq!(AnyPacketHeader::from_pcap(h).original_length(), 7);
}

#[test]
fn packet_header_into_any() {
    let h = PacketHeader::new(PacketTimestamp { seconds: 5, usec: 6 }, 2, 3);
    let any: AnyPacketHeader = h.into();
    assert_eq!(any, AnyPacketHeader::Pcap(h));
}

#[test]
fn any_reader_version() {
    let reader = SyncAnyPcapReader::new(ByteReader::new(pcap_file())).unwrap();
    assert_eq!(reader.version(), rusty_pcap::Version { major: 2, minor: 4 });
    let reader = SyncAnyPcapReader::new(ByteReader::new(pcapng_file())).unwrap();
    assert_eq!(reader.version(), rusty_pcap::Version { major: 1, minor: 0 });
}
