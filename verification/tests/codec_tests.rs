use sv_arbiter::codec::{
    create_sv_packet, EthernetFrame, LogicalNode, ReceivedEthernetFrame, SmvData, SvPDU,
    ETHER_TYPE, TCI, TPID,
};

fn quiet_node(mag: i32, q_ia: u32) -> LogicalNode {
    LogicalNode {
        i_a: mag,
        q_ia,
        i_b: mag,
        q_ib: 0,
        i_c: mag,
        q_ic: 0,
        i_n: mag,
        q_in: 0,
        v_a: mag,
        q_va: 0,
        v_b: mag,
        q_vb: 0,
        v_c: mag,
        q_vc: 0,
        v_n: mag,
        q_vn: 0,
    }
}

fn sealed_frame(sv_id: u32, smp_cnt: u16, mag: i32, q_ia: u32) -> EthernetFrame {
    let apdu = SmvData {
        sv_id,
        smp_cnt,
        logical_node: quiet_node(mag, q_ia),
        ..SmvData::default()
    };
    let payload = SvPDU {
        apdu,
        ..SvPDU::default()
    };
    let received = ReceivedEthernetFrame {
        destination: [0x01, 0x0c, 0xcd, 0x04, 0xff, 0xff],
        source: [0x00, 0x1a, 0x11, 0x00, 0x00, 0x01],
        ethertype: ETHER_TYPE,
        payload,
        fcs: [0, 0, 0, 0],
    };
    ReceivedEthernetFrame::convert_received_ethernet_frame_into_ethernet_frame(received)
}

#[test]
fn default_packet_matches_wire_image() {
    let frame = create_sv_packet();
    let bytes = frame.to_bytes();
    assert_eq!(bytes.len(), 124);
    let expected_prefix: [u8; 56] = [
        0x01, 0x0C, 0xCD, 0x04, 0xFF, 0xFF, 0x00, 0x1A, 0x11, 0x00, 0x00, 0x01, 0x81, 0x00, 0x80,
        0x00, 0x88, 0xBA, 0x40, 0x01, 0x00, 0x66, 0x00, 0x00, 0x00, 0x00, 0x60, 0x5C, 0x80, 0x01,
        0x01, 0xA2, 0x57, 0x30, 0x55, 0x80, 0x04, 0x34, 0x30, 0x30, 0x31, 0x82, 0x02, 0x00, 0x00,
        0x83, 0x04, 0x00, 0x00, 0x00, 0x01, 0x85, 0x01, 0x01, 0x87, 0x40,
    ];
    assert_eq!(&bytes[..56], &expected_prefix[..]);
    // 64-byte channel block: zero magnitudes, bit 13 on the neutrals.
    let ln = &bytes[56..120];
    for (i, b) in ln.iter().enumerate() {
        let expected = match i {
            30 => 0x20, // q_in
            62 => 0x20, // q_vn
            _ => 0x00,
        };
        assert_eq!(*b, expected, "channel block byte {}", i);
    }
}

#[test]
fn default_packet_verifies_and_round_trips() {
    let frame = create_sv_packet();
    assert!(frame.verify_checksum());
    let bytes = frame.to_bytes();
    let parsed = EthernetFrame::from_bytes(&bytes).unwrap();
    assert_eq!(parsed, frame);
    assert!(parsed.verify_checksum());
}

#[test]
fn arbitrary_frame_round_trips() {
    let frame = sealed_frame(0x3430_3030, 4799, -123_456, 7);
    assert_eq!(frame.tpid, TPID);
    assert_eq!(frame.tci, TCI);
    let bytes = frame.to_bytes();
    let parsed = EthernetFrame::from_bytes(&bytes).unwrap();
    assert_eq!(parsed, frame);
    assert!(frame.verify_checksum());
}

#[test]
fn flipped_bit_fails_the_checksum() {
    let frame = sealed_frame(0x3430_3030, 0, 1000, 0);
    let mut bytes = frame.to_bytes();
    bytes[60] ^= 0x01; // inside the dataset region
    let parsed = EthernetFrame::from_bytes(&bytes).unwrap();
    assert!(!parsed.verify_checksum());
}

#[test]
fn from_bytes_rejects_each_short_layer() {
    let frame = create_sv_packet();
    let bytes = frame.to_bytes();
    assert_eq!(
        EthernetFrame::from_bytes(&bytes[..10]),
        Err("Invalid Ethernet frame length")
    );
    assert_eq!(EthernetFrame::from_bytes(&bytes[..25]), Err("Invalid SvPDU length"));
    assert_eq!(EthernetFrame::from_bytes(&bytes[..40]), Err("Invalid SmvData length"));
    assert_eq!(
        EthernetFrame::from_bytes(&bytes[..100]),
        Err("Invalid LogicalNode length")
    );
    assert!(EthernetFrame::from_bytes(&bytes).is_ok());
}

#[test]
fn received_from_bytes_rejects_each_short_layer() {
    let frame = sealed_frame(0x3430_3031, 1, 500, 0);
    // untagged wire image: no 802.1Q words
    let mut bytes = Vec::new();
    bytes.extend_from_slice(&frame.destination);
    bytes.extend_from_slice(&frame.source);
    bytes.extend_from_slice(&frame.ethertype.to_be_bytes());
    bytes.extend_from_slice(&frame.payload.to_bytes());
    bytes.extend_from_slice(&frame.fcs);
    assert_eq!(bytes.len(), 120);
    assert_eq!(
        ReceivedEthernetFrame::from_bytes(&bytes[..17]),
        Err("Invalid Ethernet frame length")
    );
    assert_eq!(
        ReceivedEthernetFrame::from_bytes(&bytes[..20]),
        Err("Invalid SvPDU length")
    );
    assert_eq!(
        ReceivedEthernetFrame::from_bytes(&bytes[..30]),
        Err("Invalid SmvData length")
    );
    assert_eq!(
        ReceivedEthernetFrame::from_bytes(&bytes[..119]),
        Err("Invalid LogicalNode length")
    );
    let parsed = ReceivedEthernetFrame::from_bytes(&bytes).unwrap();
    assert_eq!(parsed.ethertype, ETHER_TYPE);
    assert_eq!(parsed.payload, frame.payload);
    assert_eq!(parsed.fcs, frame.fcs);
}

#[test]
fn conversion_preserves_headers_and_reseals() {
    let frame = sealed_frame(0x3430_3030, 42, 77, 0);
    let received = ReceivedEthernetFrame {
        destination: frame.destination,
        source: frame.source,
        ethertype: frame.ethertype,
        payload: frame.payload.clone(),
        fcs: [0xde, 0xad, 0xbe, 0xef], // stale check sequence
    };
    let converted =
        ReceivedEthernetFrame::convert_received_ethernet_frame_into_ethernet_frame(received);
    assert_eq!(converted, frame);
    assert!(converted.verify_checksum());
}

#[test]
fn quality_sum_is_the_sum_of_the_eight_words() {
    let mut node = quiet_node(0, 0);
    assert_eq!(node.sum_extracted_q(), 0);
    node.q_ia = 1;
    node.q_vc = 2;
    node.q_vn = 0x2000;
    assert_eq!(node.sum_extracted_q(), 0x2003);
    assert_eq!(
        node.extract_q(),
        vec![1, 0, 0, 0, 0, 0, 2, 0x2000]
    );
}

#[test]
fn quality_sum_wraps_like_the_word_size() {
    let mut node = quiet_node(0, 0);
    node.q_ia = u32::MAX;
    node.q_ib = 5;
    assert_eq!(node.sum_extracted_q(), 4);
}

#[test]
fn magnitudes_extract_in_dataset_order() {
    let node = LogicalNode {
        i_a: 1,
        q_ia: 0,
        i_b: 2,
        q_ib: 0,
        i_c: 3,
        q_ic: 0,
        i_n: 4,
        q_in: 0,
        v_a: -5,
        q_va: 0,
        v_b: 6,
        q_vb: 0,
        v_c: 7,
        q_vc: 0,
        v_n: -8,
        q_vn: 0,
    };
    assert_eq!(node.extract_v(), vec![1, 2, 3, 4, -5, 6, 7, -8]);
}

#[test]
fn defaults_match_the_standard_values() {
    let frame = EthernetFrame::default();
    assert_eq!(frame.destination, [0x01, 0x0c, 0xcd, 0x04, 0xff, 0xff]);
    assert_eq!(frame.tpid, 0x8100);
    assert_eq!(frame.tci, 0x8000);
    assert_eq!(frame.ethertype, 0x88BA);
    assert_eq!(frame.payload.appid, [0x40, 0x01]);
    assert_eq!(frame.payload.length, [0x00, 0x66]);
    assert_eq!(frame.payload.apdu.sv_id, 0x3430_3031);
    assert_eq!(frame.payload.apdu.smp_cnt, 0);
    assert_eq!(frame.payload.apdu.conf_rev, 1);
    assert_eq!(frame.payload.apdu.smp_synch, 1);
    assert_eq!(frame.payload.apdu.logical_node.q_in, 0x2000);
    assert_eq!(frame.payload.apdu.logical_node.i_a, 0);
    assert_eq!(frame.fcs, [0, 0, 0, 0]);
}
