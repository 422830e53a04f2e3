use sv_arbiter::codec::{EthernetFrame, LogicalNode, ReceivedEthernetFrame, SmvData, SvPDU};
use sv_arbiter::processor::{FrameProcessor, State, SV_ID_MU1, SV_ID_MU2};

fn quiet_node(mag: i32, q_ia: u32) -> LogicalNode {
    LogicalNode {
        i_a: mag,
        q_ia,
        i_b: mag,
        q_ib: 0,
        i_c: mag,
        q_ic: 0,
        i_n: mag,
        q_in: 0,
        v_a: mag,
        q_va: 0,
        v_b: mag,
        q_vb: 0,
        v_c: mag,
        q_vc: 0,
        v_n: mag,
        q_vn: 0,
    }
}

fn sealed_frame(sv_id: u32, smp_cnt: u16, mag: i32, q_ia: u32) -> EthernetFrame {
    let apdu = SmvData {
        sv_id,
        smp_cnt,
        logical_node: quiet_node(mag, q_ia),
        ..SmvData::default()
    };
    let payload = SvPDU {
        apdu,
        ..SvPDU::default()
    };
    let received = ReceivedEthernetFrame {
        destination: [0x01, 0x0c, 0xcd, 0x04, 0xff, 0xff],
        source: [0x00, 0x1a, 0x11, 0x00, 0x00, 0x01],
        ethertype: 0x88BA,
        payload,
        fcs: [0, 0, 0, 0],
    };
    ReceivedEthernetFrame::convert_received_ethernet_frame_into_ethernet_frame(received)
}

#[test]
fn valid_frames_fill_the_windows() {
    let mut p = FrameProcessor::new();
    let f1 = sealed_frame(SV_ID_MU1, 0, 1000, 0);
    p.process_frame(&f1);
    assert_eq!(p.state, State::GetSample);
    assert_eq!(p.cont_smp_valid_sv_id_1, 1);
    assert_eq!(p.cont_smp_valid_sv_id_2, 0);
    assert_eq!(p.buffer_mu1[0], 1000);
    assert_eq!(p.buffer_mu1[40], 1000); // second channel, first sample
    let f2 = sealed_frame(SV_ID_MU2, 0, 1400, 0);
    p.process_frame(&f2);
    assert_eq!(p.cont_smp_valid_sv_id_2, 1);
    assert_eq!(p.buffer_mu2[0], 1400);
}

#[test]
fn invalid_frames_count_and_the_tenth_toggles() {
    let mut p = FrameProcessor::new();
    let bad = sealed_frame(SV_ID_MU1, 0, 1000, 1);
    for i in 1..10 {
        p.process_frame(&bad);
        assert_eq!(p.cont_smp_inv, i);
        assert!(!p.toggle_mu);
    }
    p.process_frame(&bad);
    // the tenth consecutive invalid sample toggled and reset
    assert!(p.toggle_mu);
    assert_eq!(p.cont_smp_inv, 0);
    assert_eq!(p.cont_smp_valid_sv_id_1, 0);
}

#[test]
fn questionable_frames_change_nothing_but_the_cycle() {
    let mut p = FrameProcessor::new();
    let q = sealed_frame(SV_ID_MU1, 0, 1000, 3);
    p.process_frame(&q);
    assert_eq!(p.state, State::GetSample);
    assert_eq!(p.cont_smp_inv, 0);
    assert_eq!(p.cont_smp_valid_sv_id_1, 0);
    assert!(!p.toggle_mu);
}

#[test]
fn dispersion_thirty_percent_toggles_away_from_the_outlier() {
    let mut p = FrameProcessor::new();
    p.buffer_mu1 = vec![1000; 320];
    p.buffer_mu2 = vec![1300; 320];
    p.state = State::CheckErrorPercentage;
    p.valid_error_percentage();
    assert_eq!(p.error_percentage, 300_000);
    assert_eq!(p.state, State::ToogleMU);
}

#[test]
fn dispersion_twenty_percent_keeps_the_unit() {
    let mut p = FrameProcessor::new();
    p.buffer_mu1 = vec![1000; 320];
    p.buffer_mu2 = vec![1200; 320];
    p.state = State::CheckErrorPercentage;
    p.valid_error_percentage();
    assert_eq!(p.error_percentage, 200_000);
    assert_eq!(p.state, State::CompleteCycle);
    assert!(!p.toggle_mu);
}

#[test]
fn dispersion_error_sides_decide_relative_to_each_window() {
    // the relative step from the first window is the larger error, so
    // the first unit counts as the outlier whichever unit is active
    let mut p = FrameProcessor::new();
    p.toggle_mu = true; // second unit already elected: stays
    p.buffer_mu1 = vec![1000; 320];
    p.buffer_mu2 = vec![1400; 320];
    p.state = State::CheckErrorPercentage;
    p.valid_error_percentage();
    assert_eq!(p.error_percentage, 400_000);
    assert_eq!(p.state, State::CompleteCycle);

    let mut q = FrameProcessor::new();
    q.toggle_mu = true; // second unit elected, and it is the outlier
    q.buffer_mu1 = vec![1400; 320];
    q.buffer_mu2 = vec![1000; 320];
    q.state = State::CheckErrorPercentage;
    q.valid_error_percentage();
    assert_eq!(q.error_percentage, 400_000);
    assert_eq!(q.state, State::ToogleMU);
}

#[test]
fn dispersion_skips_zero_magnitudes_without_shrinking_the_mean() {
    let mut p = FrameProcessor::new();
    p.buffer_mu1 = vec![0; 320];
    p.buffer_mu2 = vec![1400; 320];
    p.state = State::CheckErrorPercentage;
    p.valid_error_percentage();
    // terms against the zero window contribute nothing; the other
    // direction sees a full relative step on every sample
    assert_eq!(p.error_percentage, 1_000_000);
    assert_eq!(p.state, State::CompleteCycle);
}

#[test]
fn ingest_rejects_short_and_foreign_buffers() {
    let mut p = FrameProcessor::new();
    assert_eq!(p.ingest_frame(&[]), None);
    assert_eq!(p.ingest_frame(&[0u8; 13]), None);
    let mut foreign = sealed_frame(SV_ID_MU1, 0, 1000, 0).to_bytes();
    // untagged image with an EtherType that is not sampled values
    foreign.drain(12..16); // strip the 802.1Q words, leaving dst src ethertype
    foreign[12] = 0x08;
    foreign[13] = 0x00;
    assert_eq!(p.ingest_frame(&foreign), None);
    assert_eq!(p.cont_smp_inv, 0);
    assert_eq!(p.cont_smp_valid_sv_id_1, 0);
}

fn wire_bytes(frame: &EthernetFrame) -> Vec<u8> {
    // the untagged image the receive path hands over
    let mut b = Vec::new();
    b.extend_from_slice(&frame.destination);
    b.extend_from_slice(&frame.source);
    b.extend_from_slice(&frame.ethertype.to_be_bytes());
    b.extend_from_slice(&frame.payload.to_bytes());
    b.extend_from_slice(&frame.fcs);
    b
}

#[test]
fn ingest_republishes_the_elected_unit_resealed() {
    let mut p = FrameProcessor::new();
    let f1 = sealed_frame(SV_ID_MU1, 7, 1000, 0);
    let out = p.ingest_frame(&wire_bytes(&f1)).expect("elected frame republished");
    assert_eq!(out, f1);
    assert!(out.verify_checksum());
    let f2 = sealed_frame(SV_ID_MU2, 7, 1000, 0);
    assert_eq!(p.ingest_frame(&wire_bytes(&f2)), None);
    assert_eq!(p.cont_smp_valid_sv_id_2, 1); // still fed to the machine
}
