use sv_arbiter::codec::{EthernetFrame, LogicalNode, ReceivedEthernetFrame, SmvData, SvPDU};
use sv_arbiter::processor::{FrameProcessor, SV_ID_MU1, SV_ID_MU2};

fn quiet_node(mag: i32, q_ia: u32) -> LogicalNode {
    LogicalNode {
        i_a: mag,
        q_ia,
        i_b: mag,
        q_ib: 0,
        i_c: mag,
        q_ic: 0,
        i_n: mag,
        q_in: 0,
        v_a: mag,
        q_va: 0,
        v_b: mag,
        q_vb: 0,
        v_c: mag,
        q_vc: 0,
        v_n: mag,
        q_vn: 0,
    }
}

fn wire_bytes(sv_id: u32, smp_cnt: u16, mag: i32, q_ia: u32) -> Vec<u8> {
    let apdu = SmvData {
        sv_id,
        smp_cnt,
        logical_node: quiet_node(mag, q_ia),
        ..SmvData::default()
    };
    let payload = SvPDU {
        apdu,
        ..SvPDU::default()
    };
    let received = ReceivedEthernetFrame {
        destination: [0x01, 0x0c, 0xcd, 0x04, 0xff, 0xff],
        source: [0x00, 0x1a, 0x11, 0x00, 0x00, 0x01],
        ethertype: 0x88BA,
        payload,
        fcs: [0, 0, 0, 0],
    };
    let sealed =
        ReceivedEthernetFrame::convert_received_ethernet_frame_into_ethernet_frame(received);
    let mut b = Vec::new();
    b.extend_from_slice(&sealed.destination);
    b.extend_from_slice(&sealed.source);
    b.extend_from_slice(&sealed.ethertype.to_be_bytes());
    b.extend_from_slice(&sealed.payload.to_bytes());
    b.extend_from_slice(&sealed.fcs);
    b
}

#[test]
fn happy_path_republishes_every_frame() {
    let mut p = FrameProcessor::new();
    let mut egressed = 0;
    for i in 0..100u16 {
        let b = wire_bytes(SV_ID_MU1, i, 1000, 0);
        if let Some(out) = p.ingest_frame(&b) {
            assert_eq!(out.payload.apdu.smp_cnt, i);
            assert!(out.verify_checksum());
            egressed += 1;
        }
    }
    assert_eq!(egressed, 100);
    assert!(!p.toggle_mu); // the first unit stays elected
    assert_eq!(p.cont_smp_inv, 0);
}

#[test]
fn quality_failover_switches_to_the_second_unit() {
    let mut p = FrameProcessor::new();
    for i in 0..10u16 {
        assert!(p.ingest_frame(&wire_bytes(SV_ID_MU1, i, 1000, 0)).is_some());
    }
    assert!(!p.toggle_mu);
    let mut flipped_after = 0;
    for i in 0..11u16 {
        p.ingest_frame(&wire_bytes(SV_ID_MU1, 10 + 2 * i, 1000, 1));
        p.ingest_frame(&wire_bytes(SV_ID_MU2, 10 + 2 * i + 1, 1000, 0));
        if p.toggle_mu && flipped_after == 0 {
            flipped_after = i + 1;
        }
    }
    assert!(p.toggle_mu, "election flipped to the second unit");
    assert!(flipped_after <= 11, "within eleven degraded frames");
    // subsequent frames of the first unit are dropped, the second's pass
    assert_eq!(p.ingest_frame(&wire_bytes(SV_ID_MU1, 40, 1000, 1)), None);
    assert!(p.ingest_frame(&wire_bytes(SV_ID_MU2, 41, 1000, 0)).is_some());
}

#[test]
fn dispersion_failover_switches_on_forty_percent_error() {
    let mut p = FrameProcessor::new();
    for i in 0..40u16 {
        p.ingest_frame(&wire_bytes(SV_ID_MU1, 2 * i, 1000, 0));
        p.ingest_frame(&wire_bytes(SV_ID_MU2, 2 * i + 1, 1400, 0));
    }
    assert!(p.toggle_mu, "the diverging second window toggles the election");
    // the completed cycle cleared the windows and the error
    assert_eq!(p.cont_smp_valid_sv_id_1, 0);
    assert_eq!(p.cont_smp_valid_sv_id_2, 0);
    assert_eq!(p.error_percentage, 0);
}

#[test]
fn recovery_after_dispersion_failover_holds_the_election() {
    let mut p = FrameProcessor::new();
    for i in 0..40u16 {
        p.ingest_frame(&wire_bytes(SV_ID_MU1, 2 * i, 1000, 0));
        p.ingest_frame(&wire_bytes(SV_ID_MU2, 2 * i + 1, 1400, 0));
    }
    assert!(p.toggle_mu);
    // matching magnitudes from both units: the error stays at zero
    for i in 0..40u16 {
        p.ingest_frame(&wire_bytes(SV_ID_MU1, 100 + 2 * i, 1400, 0));
        p.ingest_frame(&wire_bytes(SV_ID_MU2, 100 + 2 * i + 1, 1400, 0));
    }
    assert!(p.toggle_mu, "no further toggle");
    assert_eq!(p.error_percentage, 0);
}

#[test]
fn sample_counter_wraparound_is_no_event() {
    let mut p = FrameProcessor::new();
    for &cnt in [4798u16, 4799, 0, 1].iter() {
        let out = p.ingest_frame(&wire_bytes(SV_ID_MU1, cnt, 1000, 0));
        assert!(out.is_some());
    }
    assert!(!p.toggle_mu);
    assert_eq!(p.cont_smp_inv, 0);
    assert_eq!(p.cont_smp_valid_sv_id_1, 4);
}

#[test]
fn corrupted_frame_is_dropped_without_a_tick() {
    let mut p = FrameProcessor::new();
    assert!(p.ingest_frame(&wire_bytes(SV_ID_MU1, 0, 1000, 1)).is_some());
    assert_eq!(p.cont_smp_inv, 1);
    let mut b = wire_bytes(SV_ID_MU1, 1, 1000, 1);
    b[60] ^= 0x10; // one bit in the dataset region
    assert_eq!(p.ingest_frame(&b), None);
    assert_eq!(p.cont_smp_inv, 1, "the invalid counter did not move");
    assert_eq!(p.cont_smp_valid_sv_id_1, 0);
    assert!(!p.toggle_mu);
}
