//! Wire codec for IEC 61850-9-2 sampled-value Ethernet frames.
//!
//! A frame is a fixed-layout byte string: Ethernet header with an 802.1Q
//! tag, the sampled-value PDU, one ASDU whose ASN.1 tag/length prefixes
//! are fixed-position literals, a dataset of eight `(value, quality)`
//! channels, and a trailing CRC-32 frame check sequence. Serialization
//! and parsing are proved inverse of each other; checksum sealing and
//! verification are proved consistent through one named checksum
//! function.

use vstd::prelude::*;
use vstd::wrapping::u32_specs;

use crate::wire::{
    lemma_i32_be_round, lemma_u16_be_round, lemma_u32_be_round, push_i32_be, push_u16_be,
    push_u32_be, spec_i32_be, spec_i32_from_be, spec_u16_be, spec_u16_from_be, spec_u32_be,
    spec_u32_be_arr, spec_u32_from_be, i32_from_be, lemma_u32_be_arr_view, u16_from_be,
    u32_from_be, u32_to_be_arr,
};

verus! {

/// 802.1Q tag protocol identifier carried by sampled-value frames.
pub const TPID: u16 = 0x8100;

/// 802.1Q tag control information (priority class) used on transmit.
pub const TCI: u16 = 0x8000;

/// EtherType assigned to IEC 61850-9-2 sampled values.
pub const ETHER_TYPE: u16 = 0x88BA;

/// The dataset: eight phasor channels, each a signed magnitude and an
/// IEC 61850 quality word, in the order Ia, Ib, Ic, In, Va, Vb, Vc, Vn.
#[derive(Debug, Clone, PartialEq)]
pub struct LogicalNode {
    pub i_a: i32,
    pub q_ia: u32,
    pub i_b: i32,
    pub q_ib: u32,
    pub i_c: i32,
    pub q_ic: u32,
    pub i_n: i32,
    pub q_in: u32,
    pub v_a: i32,
    pub q_va: u32,
    pub v_b: i32,
    pub q_vb: u32,
    pub v_c: i32,
    pub q_vc: u32,
    pub v_n: i32,
    pub q_vn: u32,
}

/// One ASDU: identity, counters and the dataset, each value preceded by
/// its fixed ASN.1 tag/length prefix as the codec emits and expects it.
#[derive(Debug, Clone, PartialEq)]
pub struct SmvData {
    pub sav_pdu_asn: [u8; 2],
    pub no_asdu_asn: [u8; 2],
    pub no_asdu: u8,
    pub seq_asdu_asn: [u8; 2],
    pub asdu_asn: [u8; 2],
    pub sv_id_asn: [u8; 2],
    pub sv_id: u32,
    pub smp_cnt_asn: [u8; 2],
    pub smp_cnt: u16,
    pub conf_rev_asn: [u8; 2],
    pub conf_rev: u32,
    pub smp_synch_asn: [u8; 2],
    pub smp_synch: u8,
    pub seq_data: [u8; 2],
    pub logical_node: LogicalNode,
}

/// The sampled-value PDU: application identifier, total length word,
/// two reserved words, and the ASDU.
#[derive(Debug, Clone, PartialEq)]
pub struct SvPDU {
    pub appid: [u8; 2],
    pub length: [u8; 2],
    pub reserved1: [u8; 2],
    pub reserved2: [u8; 2],
    pub apdu: SmvData,
}

/// A full tagged Ethernet frame as sent on the wire.
#[derive(Debug, Clone, PartialEq)]
pub struct EthernetFrame {
    pub destination: [u8; 6],
    pub source: [u8; 6],
    pub tpid: u16,
    pub tci: u16,
    pub ethertype: u16,
    pub payload: SvPDU,
    pub fcs: [u8; 4],
}

/// A frame as it arrives from the receive path, where the 802.1Q tag
/// has been stripped and only one EtherType word remains.
#[derive(Debug, Clone, PartialEq)]
pub struct ReceivedEthernetFrame {
    pub destination: [u8; 6],
    pub source: [u8; 6],
    pub ethertype: u16,
    pub payload: SvPDU,
    pub fcs: [u8; 4],
}

impl LogicalNode {
    /// The 64 dataset bytes, big-endian channel by channel.
    pub open spec fn spec_bytes(self) -> Seq<u8> {
        spec_i32_be(self.i_a) + spec_u32_be(self.q_ia) + spec_i32_be(self.i_b) + spec_u32_be(
            self.q_ib,
        ) + spec_i32_be(self.i_c) + spec_u32_be(self.q_ic) + spec_i32_be(self.i_n) + spec_u32_be(
            self.q_in,
        ) + spec_i32_be(self.v_a) + spec_u32_be(self.q_va) + spec_i32_be(self.v_b) + spec_u32_be(
            self.q_vb,
        ) + spec_i32_be(self.v_c) + spec_u32_be(self.q_vc) + spec_i32_be(self.v_n) + spec_u32_be(
            self.q_vn,
        )
    }

    /// The dataset read back from the first 64 bytes of `b`.
    pub open spec fn spec_parse(b: Seq<u8>) -> LogicalNode
        recommends
            b.len() >= 64,
    {
        LogicalNode {
            i_a: spec_i32_from_be(b[0], b[1], b[2], b[3]),
            q_ia: spec_u32_from_be(b[4], b[5], b[6], b[7]),
            i_b: spec_i32_from_be(b[8], b[9], b[10], b[11]),
            q_ib: spec_u32_from_be(b[12], b[13], b[14], b[15]),
            i_c: spec_i32_from_be(b[16], b[17], b[18], b[19]),
            q_ic: spec_u32_from_be(b[20], b[21], b[22], b[23]),
            i_n: spec_i32_from_be(b[24], b[25], b[26], b[27]),
            q_in: spec_u32_from_be(b[28], b[29], b[30], b[31]),
            v_a: spec_i32_from_be(b[32], b[33], b[34], b[35]),
            q_va: spec_u32_from_be(b[36], b[37], b[38], b[39]),
            v_b: spec_i32_from_be(b[40], b[41], b[42], b[43]),
            q_vb: spec_u32_from_be(b[44], b[45], b[46], b[47]),
            v_c: spec_i32_from_be(b[48], b[49], b[50], b[51]),
            q_vc: spec_u32_from_be(b[52], b[53], b[54], b[55]),
            v_n: spec_i32_from_be(b[56], b[57], b[58], b[59]),
            q_vn: spec_u32_from_be(b[60], b[61], b[62], b[63]),
        }
    }

    /// Serialize the dataset.
    pub fn to_bytes(&self) -> (r: Vec<u8>)
        ensures
            r@ == self.spec_bytes(),
            r@.len() == 64,
    {
        let mut node: Vec<u8> = Vec::new();
        push_i32_be(&mut node, self.i_a);
        push_u32_be(&mut node, self.q_ia);
        push_i32_be(&mut node, self.i_b);
        push_u32_be(&mut node, self.q_ib);
        push_i32_be(&mut node, self.i_c);
        push_u32_be(&mut node, self.q_ic);
        push_i32_be(&mut node, self.i_n);
        push_u32_be(&mut node, self.q_in);
        push_i32_be(&mut node, self.v_a);
        push_u32_be(&mut node, self.q_va);
        push_i32_be(&mut node, self.v_b);
        push_u32_be(&mut node, self.q_vb);
        push_i32_be(&mut node, self.v_c);
        push_u32_be(&mut node, self.q_vc);
        push_i32_be(&mut node, self.v_n);
        push_u32_be(&mut node, self.q_vn);
        proof {
            assert(node@ =~= self.spec_bytes());
        }
        node
    }

    /// Parse the dataset from the first 64 bytes; reject shorter input.
    pub fn from_bytes(bytes: &[u8]) -> (r: Result<Self, &'static str>)
        ensures
            bytes@.len() < 64 ==> (r matches Err(m) && m@ == "Invalid LogicalNode length"@),
            bytes@.len() >= 64 ==> r == Ok::<LogicalNode, &'static str>(
                LogicalNode::spec_parse(bytes@),
            ),
    {
        if bytes.len() < 64 {
            return Err("Invalid LogicalNode length");
        }
        let i_a = i32_from_be(bytes[0], bytes[1], bytes[2], bytes[3]);
        let q_ia = u32_from_be(bytes[4], bytes[5], bytes[6], bytes[7]);
        let i_b = i32_from_be(bytes[8], bytes[9], bytes[10], bytes[11]);
        let q_ib = u32_from_be(bytes[12], bytes[13], bytes[14], bytes[15]);
        let i_c = i32_from_be(bytes[16], bytes[17], bytes[18], bytes[19]);
        let q_ic = u32_from_be(bytes[20], bytes[21], bytes[22], bytes[23]);
        let i_n = i32_from_be(bytes[24], bytes[25], bytes[26], bytes[27]);
        let q_in = u32_from_be(bytes[28], bytes[29], bytes[30], bytes[31]);
        let v_a = i32_from_be(bytes[32], bytes[33], bytes[34], bytes[35]);
        let q_va = u32_from_be(bytes[36], bytes[37], bytes[38], bytes[39]);
        let v_b = i32_from_be(bytes[40], bytes[41], bytes[42], bytes[43]);
        let q_vb = u32_from_be(bytes[44], bytes[45], bytes[46], bytes[47]);
        let v_c = i32_from_be(bytes[48], bytes[49], bytes[50], bytes[51]);
        let q_vc = u32_from_be(bytes[52], bytes[53], bytes[54], bytes[55]);
        let v_n = i32_from_be(bytes[56], bytes[57], bytes[58], bytes[59]);
        let q_vn = u32_from_be(bytes[60], bytes[61], bytes[62], bytes[63]);
        Ok(
            LogicalNode {
                i_a,
                q_ia,
                i_b,
                q_ib,
                i_c,
                q_ic,
                i_n,
                q_in,
                v_a,
                q_va,
                v_b,
                q_vb,
                v_c,
                q_vc,
                v_n,
                q_vn,
            },
        )
    }

    /// The eight channel magnitudes, dataset order.
    pub open spec fn spec_magnitudes(self) -> Seq<i32> {
        seq![self.i_a, self.i_b, self.i_c, self.i_n, self.v_a, self.v_b, self.v_c, self.v_n]
    }

    /// The eight quality words, dataset order.
    pub open spec fn spec_qualities(self) -> Seq<u32> {
        seq![
            self.q_ia,
            self.q_ib,
            self.q_ic,
            self.q_in,
            self.q_va,
            self.q_vb,
            self.q_vc,
            self.q_vn,
        ]
    }

    /// The channel magnitudes as a vector.
    pub fn extract_v(&self) -> (r: Vec<i32>)
        ensures
            r@ == self.spec_magnitudes(),
    {
        let mut r: Vec<i32> = Vec::new();
        r.push(self.i_a);
        r.push(self.i_b);
        r.push(self.i_c);
        r.push(self.i_n);
        r.push(self.v_a);
        r.push(self.v_b);
        r.push(self.v_c);
        r.push(self.v_n);
        proof {
            assert(r@ =~= self.spec_magnitudes());
        }
        r
    }

    /// The quality words as a vector.
    pub fn extract_q(&self) -> (r: Vec<u32>)
        ensures
            r@ == self.spec_qualities(),
    {
        let mut r: Vec<u32> = Vec::new();
        r.push(self.q_ia);
        r.push(self.q_ib);
        r.push(self.q_ic);
        r.push(self.q_in);
        r.push(self.q_va);
        r.push(self.q_vb);
        r.push(self.q_vc);
        r.push(self.q_vn);
        proof {
            assert(r@ =~= self.spec_qualities());
        }
        r
    }

    /// The wrapping sum of the eight quality words: the compact quality
    /// summary the state machines classify on.
    pub open spec fn spec_quality_sum(self) -> u32 {
        u32_specs::wrapping_add(
            u32_specs::wrapping_add(
                u32_specs::wrapping_add(
                    u32_specs::wrapping_add(
                        u32_specs::wrapping_add(
                            u32_specs::wrapping_add(
                                u32_specs::wrapping_add(self.q_ia, self.q_ib),
                                self.q_ic,
                            ),
                            self.q_in,
                        ),
                        self.q_va,
                    ),
                    self.q_vb,
                ),
                self.q_vc,
            ),
            self.q_vn,
        )
    }

    /// Sum the eight quality words.
    pub fn sum_extracted_q(&self) -> (r: u32)
        ensures
            r == self.spec_quality_sum(),
            self.spec_qualities() =~= seq![0u32, 0u32, 0u32, 0u32, 0u32, 0u32, 0u32, 0u32]
                ==> r == 0,
    {
        let mut s: u32 = self.q_ia;
        s = s.wrapping_add(self.q_ib);
        s = s.wrapping_add(self.q_ic);
        s = s.wrapping_add(self.q_in);
        s = s.wrapping_add(self.q_va);
        s = s.wrapping_add(self.q_vb);
        s = s.wrapping_add(self.q_vc);
        s = s.wrapping_add(self.q_vn);
        s
    }

    /// The serialized dataset is 64 bytes long.
    pub proof fn lemma_bytes_len(self)
        ensures
            self.spec_bytes().len() == 64,
    {
    }

    /// Parsing the serialized dataset restores it exactly.
    #[verifier::spinoff_prover]
    #[verifier::rlimit(100)]
    pub proof fn lemma_round_trip(self)
        ensures
            LogicalNode::spec_parse(self.spec_bytes()) == self,
    {
        lemma_i32_be_round(self.i_a);
        lemma_u32_be_round(self.q_ia);
        lemma_i32_be_round(self.i_b);
        lemma_u32_be_round(self.q_ib);
        lemma_i32_be_round(self.i_c);
        lemma_u32_be_round(self.q_ic);
        lemma_i32_be_round(self.i_n);
        lemma_u32_be_round(self.q_in);
        lemma_i32_be_round(self.v_a);
        lemma_u32_be_round(self.q_va);
        lemma_i32_be_round(self.v_b);
        lemma_u32_be_round(self.q_vb);
        lemma_i32_be_round(self.v_c);
        lemma_u32_be_round(self.q_vc);
        lemma_i32_be_round(self.v_n);
        lemma_u32_be_round(self.q_vn);
    }
}

/// Append a two-byte field.
fn push_arr2(out: &mut Vec<u8>, a: &[u8; 2])
    ensures
        final(out)@ == old(out)@ + a@,
{
    out.push(a[0]);
    out.push(a[1]);
    proof {
        assert(out@ =~= old(out)@ + a@);
    }
}

/// Append a four-byte field.
fn push_arr4(out: &mut Vec<u8>, a: &[u8; 4])
    ensures
        final(out)@ == old(out)@ + a@,
{
    out.push(a[0]);
    out.push(a[1]);
    out.push(a[2]);
    out.push(a[3]);
    proof {
        assert(out@ =~= old(out)@ + a@);
    }
}

/// Append a six-byte field.
fn push_arr6(out: &mut Vec<u8>, a: &[u8; 6])
    ensures
        final(out)@ == old(out)@ + a@,
{
    out.push(a[0]);
    out.push(a[1]);
    out.push(a[2]);
    out.push(a[3]);
    out.push(a[4]);
    out.push(a[5]);
    proof {
        assert(out@ =~= old(out)@ + a@);
    }
}

impl SmvData {
    /// The 94 ASDU bytes: tags and values in wire order.
    pub open spec fn spec_bytes(self) -> Seq<u8> {
        self.sav_pdu_asn@ + self.no_asdu_asn@ + seq![self.no_asdu] + self.seq_asdu_asn@
            + self.asdu_asn@ + self.sv_id_asn@ + spec_u32_be(self.sv_id) + self.smp_cnt_asn@
            + spec_u16_be(self.smp_cnt) + self.conf_rev_asn@ + spec_u32_be(self.conf_rev)
            + self.smp_synch_asn@ + seq![self.smp_synch] + self.seq_data@
            + self.logical_node.spec_bytes()
    }

    /// The ASDU read back from the first 94 bytes of `b`.
    pub open spec fn spec_parse(b: Seq<u8>) -> SmvData
        recommends
            b.len() >= 94,
    {
        SmvData {
            sav_pdu_asn: [b[0], b[1]],
            no_asdu_asn: [b[2], b[3]],
            no_asdu: b[4],
            seq_asdu_asn: [b[5], b[6]],
            asdu_asn: [b[7], b[8]],
            sv_id_asn: [b[9], b[10]],
            sv_id: spec_u32_from_be(b[11], b[12], b[13], b[14]),
            smp_cnt_asn: [b[15], b[16]],
            smp_cnt: spec_u16_from_be(b[17], b[18]),
            conf_rev_asn: [b[19], b[20]],
            conf_rev: spec_u32_from_be(b[21], b[22], b[23], b[24]),
            smp_synch_asn: [b[25], b[26]],
            smp_synch: b[27],
            seq_data: [b[28], b[29]],
            logical_node: LogicalNode::spec_parse(b.skip(30)),
        }
    }

    /// Serialize the ASDU.
    pub fn to_bytes(&self) -> (r: Vec<u8>)
        ensures
            r@ == self.spec_bytes(),
            r@.len() == 94,
    {
        let mut data: Vec<u8> = Vec::new();
        push_arr2(&mut data, &self.sav_pdu_asn);
        push_arr2(&mut data, &self.no_asdu_asn);
        data.push(self.no_asdu);
        push_arr2(&mut data, &self.seq_asdu_asn);
        push_arr2(&mut data, &self.asdu_asn);
        push_arr2(&mut data, &self.sv_id_asn);
        push_u32_be(&mut data, self.sv_id);
        push_arr2(&mut data, &self.smp_cnt_asn);
        push_u16_be(&mut data, self.smp_cnt);
        push_arr2(&mut data, &self.conf_rev_asn);
        push_u32_be(&mut data, self.conf_rev);
        push_arr2(&mut data, &self.smp_synch_asn);
        data.push(self.smp_synch);
        push_arr2(&mut data, &self.seq_data);
        let mut node = self.logical_node.to_bytes();
        data.append(&mut node);
        proof {
            assert(data@ =~= self.spec_bytes());
        }
        data
    }

    /// Parse the ASDU from the first 94 bytes; reject shorter input.
    pub fn from_bytes(bytes: &[u8]) -> (r: Result<Self, &'static str>)
        ensures
            bytes@.len() < 30 ==> (r matches Err(m) && m@ == "Invalid SmvData length"@),
            30 <= bytes@.len() < 94 ==> (r matches Err(m) && m@ == "Invalid LogicalNode length"@),
            bytes@.len() >= 94 ==> r == Ok::<SmvData, &'static str>(SmvData::spec_parse(bytes@)),
    {
        if bytes.len() < 30 {
            return Err("Invalid SmvData length");
        }
        let sav_pdu_asn = [bytes[0], bytes[1]];
        let no_asdu_asn = [bytes[2], bytes[3]];
        let no_asdu = bytes[4];
        let seq_asdu_asn = [bytes[5], bytes[6]];
        let asdu_asn = [bytes[7], bytes[8]];
        let sv_id_asn = [bytes[9], bytes[10]];
        let sv_id = u32_from_be(bytes[11], bytes[12], bytes[13], bytes[14]);
        let smp_cnt_asn = [bytes[15], bytes[16]];
        let smp_cnt = u16_from_be(bytes[17], bytes[18]);
        let conf_rev_asn = [bytes[19], bytes[20]];
        let conf_rev = u32_from_be(bytes[21], bytes[22], bytes[23], bytes[24]);
        let smp_synch_asn = [bytes[25], bytes[26]];
        let smp_synch = bytes[27];
        let seq_data = [bytes[28], bytes[29]];
        let tail = vstd::slice::slice_subrange(bytes, 30, bytes.len());
        let logical_node = match LogicalNode::from_bytes(tail) {
            Ok(ln) => ln,
            Err(e) => {
                proof {
                    assert(tail@ =~= bytes@.skip(30));
                }
                return Err(e);
            },
        };
        proof {
            assert(tail@ =~= bytes@.skip(30));
        }
        Ok(
            SmvData {
                sav_pdu_asn,
                no_asdu_asn,
                no_asdu,
                seq_asdu_asn,
                asdu_asn,
                sv_id_asn,
                sv_id,
                smp_cnt_asn,
                smp_cnt,
                conf_rev_asn,
                conf_rev,
                smp_synch_asn,
                smp_synch,
                seq_data,
                logical_node,
            },
        )
    }

    /// The serialized ASDU is 94 bytes long.
    pub proof fn lemma_bytes_len(self)
        ensures
            self.spec_bytes().len() == 94,
    {
        self.logical_node.lemma_bytes_len();
    }

    /// Parsing the serialized ASDU restores it exactly.
    #[verifier::spinoff_prover]
    #[verifier::rlimit(100)]
    pub proof fn lemma_round_trip(self)
        ensures
            SmvData::spec_parse(self.spec_bytes()) == self,
    {
        let b = self.spec_bytes();
        lemma_u32_be_round(self.sv_id);
        lemma_u16_be_round(self.smp_cnt);
        lemma_u32_be_round(self.conf_rev);
        self.logical_node.lemma_round_trip();
        assert(b.skip(30) =~= self.logical_node.spec_bytes());
        assert(SmvData::spec_parse(b).sav_pdu_asn =~= self.sav_pdu_asn);
        assert(SmvData::spec_parse(b).no_asdu_asn =~= self.no_asdu_asn);
        assert(SmvData::spec_parse(b).seq_asdu_asn =~= self.seq_asdu_asn);
        assert(SmvData::spec_parse(b).asdu_asn =~= self.asdu_asn);
        assert(SmvData::spec_parse(b).sv_id_asn =~= self.sv_id_asn);
        assert(SmvData::spec_parse(b).smp_cnt_asn =~= self.smp_cnt_asn);
        assert(SmvData::spec_parse(b).conf_rev_asn =~= self.conf_rev_asn);
        assert(SmvData::spec_parse(b).smp_synch_asn =~= self.smp_synch_asn);
        assert(SmvData::spec_parse(b).seq_data =~= self.seq_data);
    }
}

impl SvPDU {
    /// The 102 PDU bytes: four header words then the ASDU.
    pub open spec fn spec_bytes(self) -> Seq<u8> {
        self.appid@ + self.length@ + self.reserved1@ + self.reserved2@ + self.apdu.spec_bytes()
    }

    /// The PDU read back from the first 102 bytes of `b`.
    pub open spec fn spec_parse(b: Seq<u8>) -> SvPDU
        recommends
            b.len() >= 102,
    {
        SvPDU {
            appid: [b[0], b[1]],
            length: [b[2], b[3]],
            reserved1: [b[4], b[5]],
            reserved2: [b[6], b[7]],
            apdu: SmvData::spec_parse(b.skip(8)),
        }
    }

    /// Serialize the PDU.
    pub fn to_bytes(&self) -> (r: Vec<u8>)
        ensures
            r@ == self.spec_bytes(),
            r@.len() == 102,
    {
        let mut pdu: Vec<u8> = Vec::new();
        push_arr2(&mut pdu, &self.appid);
        push_arr2(&mut pdu, &self.length);
        push_arr2(&mut pdu, &self.reserved1);
        push_arr2(&mut pdu, &self.reserved2);
        let mut apdu = self.apdu.to_bytes();
        pdu.append(&mut apdu);
        proof {
            assert(pdu@ =~= self.spec_bytes());
        }
        pdu
    }

    /// Parse the PDU from the first 102 bytes; reject shorter input.
    pub fn from_bytes(bytes: &[u8]) -> (r: Result<Self, &'static str>)
        ensures
            bytes@.len() < 8 ==> (r matches Err(m) && m@ == "Invalid SvPDU length"@),
            8 <= bytes@.len() < 38 ==> (r matches Err(m) && m@ == "Invalid SmvData length"@),
            38 <= bytes@.len() < 102 ==> (r matches Err(m) && m@
                == "Invalid LogicalNode length"@),
            bytes@.len() >= 102 ==> r == Ok::<SvPDU, &'static str>(SvPDU::spec_parse(bytes@)),
    {
        if bytes.len() < 8 {
            return Err("Invalid SvPDU length");
        }
        let appid = [bytes[0], bytes[1]];
        let length = [bytes[2], bytes[3]];
        let reserved1 = [bytes[4], bytes[5]];
        let reserved2 = [bytes[6], bytes[7]];
        let tail = vstd::slice::slice_subrange(bytes, 8, bytes.len());
        proof {
            assert(tail@ =~= bytes@.skip(8));
        }
        let apdu = match SmvData::from_bytes(tail) {
            Ok(d) => d,
            Err(e) => {
                return Err(e);
            },
        };
        Ok(SvPDU { appid, length, reserved1, reserved2, apdu })
    }

    /// The serialized PDU is 102 bytes long.
    pub proof fn lemma_bytes_len(self)
        ensures
            self.spec_bytes().len() == 102,
    {
        self.apdu.lemma_bytes_len();
    }

    /// Parsing the serialized PDU restores it exactly.
    #[verifier::spinoff_prover]
    #[verifier::rlimit(100)]
    pub proof fn lemma_round_trip(self)
        ensures
            SvPDU::spec_parse(self.spec_bytes()) == self,
    {
        let b = self.spec_bytes();
        self.apdu.lemma_round_trip();
        assert(b.skip(8) =~= self.apdu.spec_bytes());
        assert(SvPDU::spec_parse(b).appid =~= self.appid);
        assert(SvPDU::spec_parse(b).length =~= self.length);
        assert(SvPDU::spec_parse(b).reserved1 =~= self.reserved1);
        assert(SvPDU::spec_parse(b).reserved2 =~= self.reserved2);
    }
}

/// CRC-32 (IEEE 802.3) of a byte string; a function of the bytes alone.
pub uninterp spec fn crc32_of(bytes: Seq<u8>) -> u32;

/// Relies on crc32fast::hash: the IEEE CRC-32 checksum of the buffer,
/// a function of the buffer's bytes alone.
#[verifier::external_body]
fn crc32(bytes: &[u8]) -> (r: u32)
    ensures
        r == crc32_of(bytes@),
{
    crc32fast::hash(bytes)
}

impl EthernetFrame {
    /// The bytes the frame check sequence covers: everything before it.
    pub open spec fn spec_covered(self) -> Seq<u8> {
        self.destination@ + self.source@ + spec_u16_be(self.tpid) + spec_u16_be(self.tci)
            + spec_u16_be(self.ethertype) + self.payload.spec_bytes()
    }

    /// The 124 bytes of the frame as sent on the wire.
    pub open spec fn spec_bytes(self) -> Seq<u8> {
        self.spec_covered() + self.fcs@
    }

    /// The stored frame check sequence matches the covered bytes.
    pub open spec fn spec_checksum_ok(self) -> bool {
        crc32_of(self.spec_covered()) == spec_u32_from_be(
            self.fcs[0],
            self.fcs[1],
            self.fcs[2],
            self.fcs[3],
        )
    }

    /// The frame with its check sequence recomputed over its own bytes.
    pub open spec fn spec_sealed(self) -> EthernetFrame {
        EthernetFrame { fcs: spec_u32_be_arr(crc32_of(self.spec_covered())), ..self }
    }

    /// The frame read back from `b`; the payload sits between the
    /// header and the trailing four check-sequence bytes.
    pub open spec fn spec_parse(b: Seq<u8>) -> EthernetFrame
        recommends
            b.len() >= 124,
    {
        EthernetFrame {
            destination: [b[0], b[1], b[2], b[3], b[4], b[5]],
            source: [b[6], b[7], b[8], b[9], b[10], b[11]],
            tpid: spec_u16_from_be(b[12], b[13]),
            tci: spec_u16_from_be(b[14], b[15]),
            ethertype: spec_u16_from_be(b[16], b[17]),
            payload: SvPDU::spec_parse(b.subrange(18, b.len() - 4)),
            fcs: [
                b[b.len() - 4],
                b[b.len() - 3],
                b[b.len() - 2],
                b[b.len() - 1],
            ],
        }
    }

    /// Build a frame from its parts.
    pub fn new(
        destination: [u8; 6],
        source: [u8; 6],
        tpid: u16,
        tci: u16,
        ethertype: u16,
        payload: SvPDU,
        fcs: [u8; 4],
    ) -> (r: Self)
        ensures
            r == (EthernetFrame { destination, source, tpid, tci, ethertype, payload, fcs }),
    {
        Self { destination, source, tpid, tci, ethertype, payload, fcs }
    }

    /// The covered bytes: header and payload, without the check sequence.
    fn covered_bytes(&self) -> (r: Vec<u8>)
        ensures
            r@ == self.spec_covered(),
            r@.len() == 120,
    {
        let mut frame: Vec<u8> = Vec::new();
        push_arr6(&mut frame, &self.destination);
        push_arr6(&mut frame, &self.source);
        push_u16_be(&mut frame, self.tpid);
        push_u16_be(&mut frame, self.tci);
        push_u16_be(&mut frame, self.ethertype);
        let mut payload = self.payload.to_bytes();
        frame.append(&mut payload);
        proof {
            assert(frame@ =~= self.spec_covered());
        }
        frame
    }

    /// Serialize the frame.
    pub fn to_bytes(&self) -> (r: Vec<u8>)
        ensures
            r@ == self.spec_bytes(),
            r@.len() == 124,
    {
        let mut frame = self.covered_bytes();
        push_arr4(&mut frame, &self.fcs);
        frame
    }

    /// Parse a tagged frame; reject input too short for any layer.
    pub fn from_bytes(bytes: &[u8]) -> (r: Result<Self, &'static str>)
        ensures
            bytes@.len() < 22 ==> (r matches Err(m) && m@ == "Invalid Ethernet frame length"@),
            22 <= bytes@.len() < 30 ==> (r matches Err(m) && m@ == "Invalid SvPDU length"@),
            30 <= bytes@.len() < 60 ==> (r matches Err(m) && m@ == "Invalid SmvData length"@),
            60 <= bytes@.len() < 124 ==> (r matches Err(m) && m@
                == "Invalid LogicalNode length"@),
            bytes@.len() >= 124 ==> r == Ok::<EthernetFrame, &'static str>(
                EthernetFrame::spec_parse(bytes@),
            ),
    {
        if bytes.len() < 22 {
            return Err("Invalid Ethernet frame length");
        }
        let n = bytes.len();
        let destination = [bytes[0], bytes[1], bytes[2], bytes[3], bytes[4], bytes[5]];
        let source = [bytes[6], bytes[7], bytes[8], bytes[9], bytes[10], bytes[11]];
        let tpid = u16_from_be(bytes[12], bytes[13]);
        let tci = u16_from_be(bytes[14], bytes[15]);
        let ethertype = u16_from_be(bytes[16], bytes[17]);
        let mid = vstd::slice::slice_subrange(bytes, 18, n - 4);
        proof {
            assert(mid@ =~= bytes@.subrange(18, bytes@.len() - 4));
        }
        let payload = match SvPDU::from_bytes(mid) {
            Ok(p) => p,
            Err(e) => {
                return Err(e);
            },
        };
        let fcs = [bytes[n - 4], bytes[n - 3], bytes[n - 2], bytes[n - 1]];
        Ok(Self { destination, source, tpid, tci, ethertype, payload, fcs })
    }

    /// Recompute the check sequence over the frame's bytes and compare
    /// it with the stored one.
    pub fn verify_checksum(&self) -> (r: bool)
        ensures
            r == self.spec_checksum_ok(),
    {
        let frame = self.covered_bytes();
        let calculated_fcs = crc32(frame.as_slice());
        let provided_fcs = u32_from_be(self.fcs[0], self.fcs[1], self.fcs[2], self.fcs[3]);
        calculated_fcs == provided_fcs
    }

    /// Parsing the serialized frame restores it exactly.
    #[verifier::spinoff_prover]
    #[verifier::rlimit(100)]
    pub proof fn lemma_round_trip(self)
        ensures
            EthernetFrame::spec_parse(self.spec_bytes()) == self,
    {
        let b = self.spec_bytes();
        self.payload.lemma_bytes_len();
        assert(b.len() == 124);
        self.payload.lemma_round_trip();
        lemma_u16_be_round(self.tpid);
        lemma_u16_be_round(self.tci);
        lemma_u16_be_round(self.ethertype);
        assert(b.subrange(18, 120) =~= self.payload.spec_bytes());
        assert(EthernetFrame::spec_parse(b).payload == self.payload);
        assert(EthernetFrame::spec_parse(b).destination =~= self.destination);
        assert(EthernetFrame::spec_parse(b).source =~= self.source);
        assert(EthernetFrame::spec_parse(b).fcs =~= self.fcs);
    }

    /// A frame whose check sequence was recomputed over its own bytes
    /// verifies.
    pub proof fn lemma_sealed_verifies(self)
        ensures
            self.spec_sealed().spec_checksum_ok(),
    {
        let sealed = self.spec_sealed();
        let c = crc32_of(self.spec_covered());
        assert(sealed.spec_covered() =~= self.spec_covered());
        lemma_u32_be_arr_view(c);
        lemma_u32_be_round(c);
        assert(spec_u32_from_be(sealed.fcs[0], sealed.fcs[1], sealed.fcs[2], sealed.fcs[3])
            == c);
    }
}

impl ReceivedEthernetFrame {
    /// The frame read back from untagged receive bytes: no 802.1Q tag,
    /// so the payload starts right after the EtherType word.
    pub open spec fn spec_parse(b: Seq<u8>) -> ReceivedEthernetFrame
        recommends
            b.len() >= 120,
    {
        ReceivedEthernetFrame {
            destination: [b[0], b[1], b[2], b[3], b[4], b[5]],
            source: [b[6], b[7], b[8], b[9], b[10], b[11]],
            ethertype: spec_u16_from_be(b[12], b[13]),
            payload: SvPDU::spec_parse(b.subrange(14, b.len() - 4)),
            fcs: [
                b[b.len() - 4],
                b[b.len() - 3],
                b[b.len() - 2],
                b[b.len() - 1],
            ],
        }
    }

    /// Parse an untagged received frame; reject input too short for any
    /// layer.
    pub fn from_bytes(bytes: &[u8]) -> (r: Result<Self, &'static str>)
        ensures
            bytes@.len() < 18 ==> (r matches Err(m) && m@ == "Invalid Ethernet frame length"@),
            18 <= bytes@.len() < 26 ==> (r matches Err(m) && m@ == "Invalid SvPDU length"@),
            26 <= bytes@.len() < 56 ==> (r matches Err(m) && m@ == "Invalid SmvData length"@),
            56 <= bytes@.len() < 120 ==> (r matches Err(m) && m@
                == "Invalid LogicalNode length"@),
            bytes@.len() >= 120 ==> r == Ok::<ReceivedEthernetFrame, &'static str>(
                ReceivedEthernetFrame::spec_parse(bytes@),
            ),
    {
        if bytes.len() < 18 {
            return Err("Invalid Ethernet frame length");
        }
        let n = bytes.len();
        let destination = [bytes[0], bytes[1], bytes[2], bytes[3], bytes[4], bytes[5]];
        let source = [bytes[6], bytes[7], bytes[8], bytes[9], bytes[10], bytes[11]];
        let ethertype = u16_from_be(bytes[12], bytes[13]);
        let mid = vstd::slice::slice_subrange(bytes, 14, n - 4);
        proof {
            assert(mid@ =~= bytes@.subrange(14, bytes@.len() - 4));
        }
        let payload = match SvPDU::from_bytes(mid) {
            Ok(p) => p,
            Err(e) => {
                return Err(e);
            },
        };
        let fcs = [bytes[n - 4], bytes[n - 3], bytes[n - 2], bytes[n - 1]];
        Ok(Self { destination, source, ethertype, payload, fcs })
    }

    /// Re-tag a received frame for transmit: restore the 802.1Q words
    /// and recompute the check sequence over the tagged bytes.
    pub fn convert_received_ethernet_frame_into_ethernet_frame(
        received_frame: ReceivedEthernetFrame,
    ) -> (r: EthernetFrame)
        ensures
            r == (EthernetFrame {
                destination: received_frame.destination,
                source: received_frame.source,
                tpid: TPID,
                tci: TCI,
                ethertype: received_frame.ethertype,
                payload: received_frame.payload,
                fcs: received_frame.fcs,
            }).spec_sealed(),
            r.spec_checksum_ok(),
    {
        let destination = received_frame.destination;
        let source = received_frame.source;
        let tpid = TPID;
        let tci = TCI;
        let ethertype = received_frame.ethertype;
        let payload = received_frame.payload;
        let fcs = received_frame.fcs;
        let mut frame_received = EthernetFrame {
            destination,
            source,
            tpid,
            tci,
            ethertype,
            payload,
            fcs,
        };
        let covered = frame_received.covered_bytes();
        let c = crc32(covered.as_slice());
        frame_received.fcs = u32_to_be_arr(c);
        proof {
            frame_received.lemma_sealed_verifies();
            assert(frame_received.spec_sealed() =~= frame_received);
        }
        frame_received
    }
}

impl LogicalNode {
    /// The default dataset: zero magnitudes, good quality on the phase
    /// channels, operational-metadata bit on the neutral channels.
    pub open spec fn spec_default() -> LogicalNode {
        LogicalNode {
            i_a: 0,
            q_ia: 0,
            i_b: 0,
            q_ib: 0,
            i_c: 0,
            q_ic: 0,
            i_n: 0,
            q_in: 0x2000,
            v_a: 0,
            q_va: 0,
            v_b: 0,
            q_vb: 0,
            v_c: 0,
            q_vc: 0,
            v_n: 0,
            q_vn: 0x2000,
        }
    }
}

impl Default for LogicalNode {
    /// The default dataset.
    fn default() -> (r: Self)
        ensures
            r == LogicalNode::spec_default(),
    {
        LogicalNode {
            i_a: 0,
            q_ia: 0,
            i_b: 0,
            q_ib: 0,
            i_c: 0,
            q_ic: 0,
            i_n: 0,
            q_in: 0x2000,
            v_a: 0,
            q_va: 0,
            v_b: 0,
            q_vb: 0,
            v_c: 0,
            q_vc: 0,
            v_n: 0,
            q_vn: 0x2000,
        }
    }
}

impl SmvData {
    /// The default ASDU: the fixed tag prefixes, the second merging
    /// unit's identity, counter zero, configuration revision one.
    pub open spec fn spec_default() -> SmvData {
        SmvData {
            sav_pdu_asn: [0x60, 0x5c],
            no_asdu_asn: [0x80, 0x01],
            no_asdu: 0x01,
            seq_asdu_asn: [0xa2, 0x57],
            asdu_asn: [0x30, 0x55],
            sv_id_asn: [0x80, 0x04],
            sv_id: 0x3430_3031,
            smp_cnt_asn: [0x82, 0x02],
            smp_cnt: 0x0000,
            conf_rev_asn: [0x83, 0x04],
            conf_rev: 0x0000_0001,
            smp_synch_asn: [0x85, 0x01],
            smp_synch: 0x01,
            seq_data: [0x87, 0x40],
            logical_node: LogicalNode::spec_default(),
        }
    }
}

impl Default for SmvData {
    /// The default ASDU.
    fn default() -> (r: Self)
        ensures
            r == SmvData::spec_default(),
    {
        let r = SmvData {
            sav_pdu_asn: [0x60, 0x5c],
            no_asdu_asn: [0x80, 0x01],
            no_asdu: 0x01,
            seq_asdu_asn: [0xa2, 0x57],
            asdu_asn: [0x30, 0x55],
            sv_id_asn: [0x80, 0x04],
            sv_id: 0x3430_3031,
            smp_cnt_asn: [0x82, 0x02],
            smp_cnt: 0x0000,
            conf_rev_asn: [0x83, 0x04],
            conf_rev: 0x0000_0001,
            smp_synch_asn: [0x85, 0x01],
            smp_synch: 0x01,
            seq_data: [0x87, 0x40],
            logical_node: LogicalNode::default(),
        };
        proof {
            assert(r.sav_pdu_asn =~= SmvData::spec_default().sav_pdu_asn);
            assert(r.no_asdu_asn =~= SmvData::spec_default().no_asdu_asn);
            assert(r.seq_asdu_asn =~= SmvData::spec_default().seq_asdu_asn);
            assert(r.asdu_asn =~= SmvData::spec_default().asdu_asn);
            assert(r.sv_id_asn =~= SmvData::spec_default().sv_id_asn);
            assert(r.smp_cnt_asn =~= SmvData::spec_default().smp_cnt_asn);
            assert(r.conf_rev_asn =~= SmvData::spec_default().conf_rev_asn);
            assert(r.smp_synch_asn =~= SmvData::spec_default().smp_synch_asn);
            assert(r.seq_data =~= SmvData::spec_default().seq_data);
        }
        r
    }
}

impl SvPDU {
    /// The default PDU: application identifier 0x4001 and the total
    /// PDU length word 0x66.
    pub open spec fn spec_default() -> SvPDU {
        SvPDU {
            appid: [0x40, 0x01],
            length: [0x00, 0x66],
            reserved1: [0x00, 0x00],
            reserved2: [0x00, 0x00],
            apdu: SmvData::spec_default(),
        }
    }
}

impl Default for SvPDU {
    /// The default PDU.
    fn default() -> (r: Self)
        ensures
            r == SvPDU::spec_default(),
    {
        let r = SvPDU {
            appid: [0x40, 0x01],
            length: [0x00, 0x66],
            reserved1: [0x00, 0x00],
            reserved2: [0x00, 0x00],
            apdu: SmvData::default(),
        };
        proof {
            assert(r.appid =~= SvPDU::spec_default().appid);
            assert(r.length =~= SvPDU::spec_default().length);
            assert(r.reserved1 =~= SvPDU::spec_default().reserved1);
            assert(r.reserved2 =~= SvPDU::spec_default().reserved2);
        }
        r
    }
}

impl EthernetFrame {
    /// The default frame: the sampled-value multicast group, a fixed
    /// publisher address, the 802.1Q tag and a zero check sequence.
    pub open spec fn spec_default() -> EthernetFrame {
        EthernetFrame {
            destination: [0x01, 0x0c, 0xcd, 0x04, 0xff, 0xff],
            source: [0x00, 0x1a, 0x11, 0x00, 0x00, 0x01],
            tpid: TPID,
            tci: TCI,
            ethertype: ETHER_TYPE,
            payload: SvPDU::spec_default(),
            fcs: [0, 0, 0, 0],
        }
    }
}

impl Default for EthernetFrame {
    /// The default frame, check sequence still zero.
    fn default() -> (r: Self)
        ensures
            r == EthernetFrame::spec_default(),
    {
        let r = EthernetFrame {
            destination: [0x01, 0x0c, 0xcd, 0x04, 0xff, 0xff],
            source: [0x00, 0x1a, 0x11, 0x00, 0x00, 0x01],
            tpid: TPID,
            tci: TCI,
            ethertype: ETHER_TYPE,
            payload: SvPDU::default(),
            fcs: [0, 0, 0, 0],
        };
        proof {
            assert(r.destination =~= EthernetFrame::spec_default().destination);
            assert(r.source =~= EthernetFrame::spec_default().source);
            assert(r.fcs =~= EthernetFrame::spec_default().fcs);
        }
        r
    }
}

/// Build the default sampled-value frame with its check sequence
/// computed over its own bytes, ready to send.
pub fn create_sv_packet() -> (r: EthernetFrame)
    ensures
        r == EthernetFrame::spec_default().spec_sealed(),
        r.spec_checksum_ok(),
{
    let destination: [u8; 6] = [0x01, 0x0c, 0xcd, 0x04, 0xff, 0xff];
    let source: [u8; 6] = [0x00, 0x1a, 0x11, 0x00, 0x00, 0x01];
    let tpid = TPID;
    let tci = TCI;
    let ethertype = ETHER_TYPE;
    let payload = SvPDU::default();
    let mut frame = EthernetFrame {
        destination,
        source,
        tpid,
        tci,
        ethertype,
        payload,
        fcs: [0x00, 0x00, 0x00, 0x00],
    };
    proof {
        assert(frame.destination =~= EthernetFrame::spec_default().destination);
        assert(frame.source =~= EthernetFrame::spec_default().source);
        assert(frame.fcs =~= EthernetFrame::spec_default().fcs);
    }
    let frame_bytes = frame.covered_bytes();
    let fcs = crc32(frame_bytes.as_slice());
    frame.fcs = u32_to_be_arr(fcs);
    proof {
        EthernetFrame::spec_default().lemma_sealed_verifies();
        assert(frame =~= EthernetFrame::spec_default().spec_sealed());
    }
    frame
}

} // verus!
