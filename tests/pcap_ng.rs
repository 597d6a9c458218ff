use rusty_pcap::byte_order::{Endianness, LittleEndian};
use rusty_pcap::link_type::LinkType;
use rusty_pcap::pcap_ng::blocks::{
    Block, BlockHeader, EnhancedPacket, GenericBlock, InterfaceDescriptionBlock, NameResolutionBlock,
    PcapNgBlock, SectionHeaderBlock, SimplePacket,
};
use rusty_pcap::pcap_ng::options::{BlockOption, BlockOptions, InvalidOption, StandardOptions};
use rusty_pcap::pcap_ng::reader::SyncPcapNgReader;
use rusty_pcap::pcap_ng::{pad_length_to_32_bytes, PcapNgParseError};
use rusty_pcap::stream::{ByteReader, IoError};
use rusty_pcap::any_reader::AnyPacketHeader;

fn u32b(v: u32, big: bool) -> [u8; 4] {
    if big {
        v.to_be_bytes()
    } else {
        v.to_le_bytes()
    }
}

fn block(id: u32, body: &[u8], big: bool) -> Vec<u8> {
    let len = 12 + body.len() as u32;
    let mut v = Vec::new();
    v.extend_from_slice(&u32b(id, big));
    v.extend_from_slice(&u32b(len, big));
    v.extend_from_slice(body);
    v.extend_from_slice(&u32b(len, big));
    v
}

fn shb(options: &[u8], big: bool) -> Vec<u8> {
    let mut body = if big {
        vec![0x1a, 0x2b, 0x3c, 0x4d, 0, 1, 0, 0]
    } else {
        vec![0x4d, 0x3c, 0x2b, 0x1a, 1, 0, 0, 0]
    };
    body.extend_from_slice(&[0xff; 8]);
    body.extend_from_slice(options);
    block(0x0A0D0D0A, &body, big)
}

fn idb(big: bool) -> Vec<u8> {
    let mut body = if big { vec![0, 1, 0, 0] } else { vec![1, 0, 0, 0] };
    body.extend_from_slice(&u32b(65535, big));
    block(1, &body, big)
}

fn epb(content: &[u8], big: bool) -> Vec<u8> {
    let mut body = Vec::new();
    for v in [0u32, 1, 2, content.len() as u32, content.len() as u32] {
        body.extend_from_slice(&u32b(v, big));
    }
    body.extend_from_slice(content);
    while body.len() % 4 != 0 {
        body.push(0);
    }
    block(6, &body, big)
}

#[test]
fn test_block_options_read_write() {
    let option_one = BlockOption::new(1, None, b"Test comment").unwrap();
    assert_eq!(option_one.code, 1);
    assert_eq!(option_one.length, 12);
    assert_eq!(option_one.value, b"Test comment");
    assert!(option_one.pen.is_none());
    assert_eq!(option_one.padding_length(), 0);

    let option_two = BlockOption::new(2, None, b"Custom data").unwrap();
    assert_eq!(option_two.code, 2);
    assert_eq!(option_two.length, 11);
    assert_eq!(option_two.value, b"Custom data");
    assert_eq!(option_two.pen, None);
    assert_eq!(option_two.padding_length(), 1);

    let options = BlockOptions(vec![option_one, option_two]);

    let mut buffer = Vec::new();
    options.write(&mut buffer, LittleEndian).unwrap();
    let expected_result = [
        1, 0, 12, 0, 84, 101, 115, 116, 32, 99, 111, 109, 109, 101, 110, 116, 2, 0, 11, 0, 67,
        117, 115, 116, 111, 109, 32, 100, 97, 116, 97, 0, 0, 0, 0, 0,
    ];
    assert_eq!(buffer, expected_result);

    let read_options = BlockOptions::read(&mut ByteReader::new(buffer.clone()), LittleEndian).unwrap();
    assert_eq!(options, read_options);
}

#[test]
fn options_round_trip_custom_and_empty() {
    let custom = BlockOption::new(2988, Some(32473), b"abcde").unwrap();
    let plain = BlockOption::new(1, None, b"").unwrap();
    let options = BlockOptions(vec![custom.clone(), plain]);
    for e in [Endianness::BigEndian, Endianness::LittleEndian] {
        let mut buffer = Vec::new();
        options.write(&mut buffer, e).unwrap();
        assert_eq!(buffer.len(), 4 + 4 + 8 + 4 + 4);
        let read = BlockOptions::read(&mut ByteReader::new(buffer), e).unwrap();
        assert_eq!(read, options);
    }
    let empty = BlockOptions(vec![]);
    let mut buffer = Vec::new();
    empty.write(&mut buffer, Endianness::BigEndian).unwrap();
    assert_eq!(buffer, vec![0, 0, 0, 0]);
    let mut r = ByteReader::new(buffer);
    assert_eq!(BlockOptions::read(&mut r, Endianness::BigEndian).unwrap(), empty);
    let mut r = ByteReader::new(vec![0, 0, 0, 0]);
    assert_eq!(BlockOptions::read_option(&mut r, Endianness::BigEndian).unwrap(), None);
}

#[test]
fn options_truncated_is_error() {
    let mut r = ByteReader::new(vec![1, 0, 8, 0, 1, 2]);
    assert!(BlockOptions::read(&mut r, LittleEndian).is_err());
}

#[test]
fn option_construction_rules() {
    assert_eq!(BlockOption::new(2989, None, b"x"), Err(InvalidOption::CustomRequiresPen));
    assert_eq!(BlockOption::new(1, Some(5), b"x"), Err(InvalidOption::UnexpectedPen(1)));
    assert_eq!(BlockOption::new(77, Some(5), b"x"), Err(InvalidOption::UnexpectedPen(77)));
    assert!(StandardOptions::CustomUTF8NotCopied.is_custom());
    assert!(!StandardOptions::Comment.is_custom());
    assert_eq!(StandardOptions::try_from_u16(19373), Some(StandardOptions::CustomBinaryNotCopied));
    assert_eq!(StandardOptions::try_from_u16(5), None);
}

#[test]
fn padding_to_four() {
    assert_eq!(pad_length_to_32_bytes(0), 0);
    assert_eq!(pad_length_to_32_bytes(1), 4);
    assert_eq!(pad_length_to_32_bytes(10), 12);
    assert_eq!(pad_length_to_32_bytes(12), 12);
    assert_eq!(pad_length_to_32_bytes(15), 16);
}

#[test]
fn section_with_option_then_packet() {
    let mut data = shb(&[1, 0, 2, 0, b'h', b'i', 0, 0, 0, 0, 0, 0], false);
    let content: Vec<u8> = (0u8..10).collect();
    data.extend_from_slice(&epb(&content, false));
    let mut reader = SyncPcapNgReader::new(ByteReader::new(data)).unwrap();
    let section = reader.current_section();
    assert_eq!(section.byte_order, Endianness::LittleEndian);
    assert_eq!(section.section_length, None);
    let options = section.options.as_ref().unwrap();
    assert_eq!(options.0.len(), 1);
    assert_eq!(options.0[0].code, 1);
    assert_eq!(options.0[0].value, b"hi");
    let (header, bytes) = reader.next_packet().unwrap().unwrap();
    assert_eq!(bytes, content);
    assert_eq!(header.original_length(), 10);
    assert!(reader.next_packet().unwrap().is_none());
}

#[test]
fn two_sections_with_different_byte_orders() {
    let mut data = shb(&[], false);
    data.extend_from_slice(&idb(false));
    data.extend_from_slice(&epb(&[1, 2, 3], false));
    data.extend_from_slice(&shb(&[], true));
    data.extend_from_slice(&idb(true));
    data.extend_from_slice(&epb(&[4, 5, 6, 7, 8], true));
    let mut reader = SyncPcapNgReader::new(ByteReader::new(data)).unwrap();
    assert_eq!(reader.current_section().byte_order, Endianness::LittleEndian);

    assert!(matches!(reader.next_block().unwrap(), Some(PcapNgBlock::InterfaceDescription(_))));
    assert_eq!(reader.interfaces().len(), 1);
    assert_eq!(reader.interfaces()[0].link_type, LinkType::Ethernet);
    match reader.next_block().unwrap() {
        Some(PcapNgBlock::EnhancedPacket(p)) => assert_eq!(p.content, vec![1, 2, 3]),
        other => panic!("unexpected {:?}", other),
    }
    match reader.next_block().unwrap() {
        Some(PcapNgBlock::SectionHeader(s)) => assert_eq!(s.byte_order, Endianness::BigEndian),
        other => panic!("unexpected {:?}", other),
    }
    assert_eq!(reader.interfaces().len(), 0);
    assert_eq!(reader.current_section().byte_order, Endianness::BigEndian);
    assert!(matches!(reader.next_block().unwrap(), Some(PcapNgBlock::InterfaceDescription(_))));
    assert_eq!(reader.interfaces().len(), 1);
    assert_eq!(reader.interfaces()[0].snap_length, 65535);
    match reader.next_block().unwrap() {
        Some(PcapNgBlock::EnhancedPacket(p)) => {
            assert_eq!(p.content, vec![4, 5, 6, 7, 8]);
            assert_eq!(p.captured_length, 5);
            assert_eq!(p.timestamp_high, 1);
        },
        other => panic!("unexpected {:?}", other),
    }
    assert!(reader.next_block().unwrap().is_none());
}

#[test]
fn packets_across_sections() {
    let mut data = shb(&[], true);
    data.extend_from_slice(&shb(&[], false));
    data.extend_from_slice(&epb(&[9, 9], false));
    let mut reader = SyncPcapNgReader::new(ByteReader::new(data)).unwrap();
    let (h, d) = reader.next_packet().unwrap().unwrap();
    assert_eq!(d, vec![9, 9]);
    assert!(matches!(h, AnyPacketHeader::PcapNgEnhanced { captured_length: 2, .. }));
    assert_eq!(reader.current_section().byte_order, Endianness::LittleEndian);
}

#[test]
fn unknown_block_is_generic() {
    let mut data = shb(&[], false);
    data.extend_from_slice(&block(0x0BAD, &[1, 2, 3, 4], false));
    let mut reader = SyncPcapNgReader::new(ByteReader::new(data)).unwrap();
    match reader.next_block().unwrap() {
        Some(PcapNgBlock::Generic(g)) => {
            assert_eq!(g, GenericBlock { block_id: 0x0BAD, block_length: 16, data: Some(vec![1, 2, 3, 4]) });
        },
        other => panic!("unexpected {:?}", other),
    }
    assert_eq!(GenericBlock::new(7, Some(vec![1, 2])).block_length, 14);
    assert_eq!(GenericBlock::new(7, None).block_length, 12);
}

#[test]
fn generic_block_read() {
    let data = block(99, &[], true);
    let g = GenericBlock::read(&mut ByteReader::new(data), Endianness::BigEndian).unwrap();
    assert_eq!(g.block_id, 99);
    assert_eq!(g.data, None);
}

#[test]
fn simple_packet_and_name_resolution() {
    let mut body = 3u32.to_le_bytes().to_vec();
    body.extend_from_slice(&[7, 8, 9, 0]);
    let data = block(3, &body, false);
    let p = SimplePacket::read(&mut ByteReader::new(data), Endianness::LittleEndian).unwrap();
    assert_eq!(p.original_length, 3);
    assert_eq!(p.content, vec![7, 8, 9]);
    assert_eq!(p.block_length, 20);

    let mut body = vec![1, 0, 5, 0, 10, 0, 0, 1, b'x', 0, 0, 0, 0, 0, 0, 0];
    body.extend_from_slice(&[0, 0, 0, 0]);
    let data = block(4, &body, false);
    let mut r = ByteReader::new(data);
    let n = NameResolutionBlock::read(&mut r, Endianness::LittleEndian).unwrap();
    assert_eq!(n.records.0.len(), 1);
    assert_eq!(n.records.0[0].record_type, 1);
    assert_eq!(n.records.0[0].record_data, vec![10, 0, 0, 1, b'x']);
    assert_eq!(n.options, None);
    assert_eq!(r.remaining(), 0);
}

#[test]
fn interface_and_enhanced_packet_readers() {
    let i = InterfaceDescriptionBlock::read(&mut ByteReader::new(idb(true)), Endianness::BigEndian)
        .unwrap();
    assert_eq!(i.link_type, LinkType::Ethernet);
    assert_eq!(i.options, None);
    let p = EnhancedPacket::read(&mut ByteReader::new(epb(&[1], false)), Endianness::LittleEndian)
        .unwrap();
    assert_eq!(p.content, vec![1]);
    assert_eq!(p.block_length, 36);
}

#[test]
fn block_header_helpers() {
    let h = BlockHeader::parse_from_bytes(&[6, 0, 0, 0, 32, 0, 0, 0]).unwrap();
    assert_eq!(h.block_id_as_u32(Endianness::LittleEndian), 6);
    assert_eq!(h.block_length_as_u32(LittleEndian), 32);
    assert_eq!(h.endianness_from_block(6), Some(Endianness::LittleEndian));
    assert_eq!(h.endianness_from_block(1), None);
    assert!(h.matches_block_id(6).is_ok());
    assert_eq!(
        h.matches_block_id(1),
        Err(PcapNgParseError::UnexpectedBlockId {
            expected_le: [1, 0, 0, 0],
            expected_be: [0, 0, 0, 1],
            got: [6, 0, 0, 0],
        })
    );
    assert!(matches!(
        BlockHeader::parse_from_bytes(&[1, 2]),
        Err(PcapNgParseError::UnexpectedSize(_))
    ));
    let mut r = ByteReader::new(vec![1, 2, 3, 4, 5, 6, 7, 8]);
    assert_eq!(BlockHeader::read(&mut r).unwrap(), BlockHeader::new([1, 2, 3, 4], [5, 6, 7, 8]));
}

#[test]
fn section_header_errors() {
    let mut bad = shb(&[], false);
    bad[8] = 0;
    assert_eq!(
        SectionHeaderBlock::read_from_reader(&mut ByteReader::new(bad)),
        Err(PcapNgParseError::InvalidEndianness { got: [0, 0x3c, 0x2b, 0x1a] })
    );
    let not_shb = idb(false);
    assert!(matches!(
        SectionHeaderBlock::read_from_reader(&mut ByteReader::new(not_shb)),
        Err(PcapNgParseError::UnexpectedBlockId { .. })
    ));
    let mut small = shb(&[], false);
    small[4] = 20;
    assert_eq!(
        SectionHeaderBlock::read_from_reader(&mut ByteReader::new(small)),
        Err(PcapNgParseError::MinimumSizeNotMet(28, 20))
    );
    let mut with_length = shb(&[], true);
    with_length[16..24].copy_from_slice(&[0, 0, 0, 0, 0, 0, 1, 0]);
    let s = SectionHeaderBlock::read_from_reader(&mut ByteReader::new(with_length)).unwrap();
    assert_eq!(s.section_length, Some(256));
    assert_eq!(s.version.major, 1);
}

#[test]
fn stream_ends() {
    let mut reader = SyncPcapNgReader::new(ByteReader::new(shb(&[], false))).unwrap();
    assert!(reader.next_block().unwrap().is_none());
    let mut data = shb(&[], false);
    data.extend_from_slice(&[1, 0, 0]);
    let mut reader = SyncPcapNgReader::new(ByteReader::new(data)).unwrap();
    assert_eq!(reader.next_block().unwrap_err(), PcapNgParseError::IO(IoError::UnexpectedEof));
    let mut data = shb(&[], false);
    let mut packet = epb(&[1, 2, 3, 4], false);
    packet.truncate(20);
    data.extend_from_slice(&packet);
    let mut reader = SyncPcapNgReader::new(ByteReader::new(data)).unwrap();
    assert_eq!(reader.next_packet().unwrap_err(), PcapNgParseError::IO(IoError::UnexpectedEof));
}

#[test]
fn undersized_enhanced_packet() {
    let mut data = epb(&[1, 2, 3, 4, 5, 6, 7, 8], false);
    data[4] = 32;
    assert_eq!(
        EnhancedPacket::read(&mut ByteReader::new(data), Endianness::LittleEndian),
        Err(PcapNgParseError::MinimumSizeNotMet(40, 32))
    );
    assert!(Endianness::from_pcap_ng_bytes(&[0x1a, 0x2b, 0x3c, 0x4d]).is_ok());
}

#[test]
fn block_type_ids() {
    assert_eq!(SectionHeaderBlock::block_id_le(), [0x0a, 0x0d, 0x0d, 0x0a]);
    assert_eq!(SectionHeaderBlock::block_id_be(), [0x0a, 0x0d, 0x0d, 0x0a]);
    assert_eq!(EnhancedPacket::block_id_be(), [0, 0, 0, 6]);
    assert_eq!(InterfaceDescriptionBlock::block_id_le(), [1, 0, 0, 0]);
    assert_eq!(NameResolutionBlock::block_id(), 4);
    assert_eq!(SimplePacket::block_id(), 3);
    assert_eq!(EnhancedPacket::minimum_size(), 32);
    assert_eq!(SectionHeaderBlock::minimum_size(), 28);
}

#[test]
fn packet_into_caller_buffer() {
    let mut data = shb(&[], false);
    data.extend_from_slice(&epb(&[1, 2, 3, 4, 5, 6], false));
    data.extend_from_slice(&epb(&[7], false));
    let mut reader = SyncPcapNgReader::new(ByteReader::new(data)).unwrap();
    let mut buffer = vec![9u8; 100];
    {
        let (h, d) = reader.next_packet_into(&mut buffer).unwrap().unwrap();
        assert_eq!(d, &[1, 2, 3, 4, 5, 6]);
        assert_eq!(h.original_length(), 6);
    }
    {
        let (_, d) = reader.next_packet_into(&mut buffer).unwrap().unwrap();
        assert_eq!(d, &[7]);
    }
    assert_eq!(buffer, vec![7]);
    assert!(reader.next_packet_into(&mut buffer).unwrap().is_none());
}

#[test]
fn interfaces_after_next_packet() {
    let mut data = shb(&[], false);
    data.extend_from_slice(&idb(false));
    data.extend_from_slice(&idb(false));
    data.extend_from_slice(&epb(&[1], false));
    data.extend_from_slice(&shb(&[], true));
    data.extend_from_slice(&epb(&[2], true));
    let mut reader = SyncPcapNgReader::new(ByteReader::new(data)).unwrap();
    assert_eq!(reader.next_packet().unwrap().unwrap().1, vec![1]);
    assert_eq!(reader.interfaces().len(), 2);
    assert_eq!(reader.next_packet().unwrap().unwrap().1, vec![2]);
    assert_eq!(reader.interfaces().len(), 0);
    assert_eq!(reader.current_section().byte_order, Endianness::BigEndian);
    assert!(reader.next_packet().unwrap().is_none());
    assert_eq!(InterfaceDescriptionBlock::minimum_size(), 20);
}
