//! The per-frame arbitration pipeline.
//!
//! One `FrameProcessor` holds both election triggers in a single state
//! machine: quality classification with the consecutive-invalid
//! failover, and the windowed dispersion comparison between the two
//! merging units. Each accepted frame drives the machine from its
//! sample-gathering state to a completion state; the elected unit is a
//! single toggle bit consulted when a frame is republished.
//!
//! Magnitude windows are two flat buffers of eight channels times
//! `N_SAMPLES` samples, channel-major. The dispersion error is held in
//! parts per million, computed exactly in integer arithmetic.

use vstd::prelude::*;

use crate::codec::{EthernetFrame, ReceivedEthernetFrame, ETHER_TYPE, TCI, TPID};
use crate::wire::spec_u16_from_be;
use crate::wire::u16_from_be;

verus! {

/// Samples per channel gathered from each merging unit before the
/// dispersion error is evaluated.
pub const N_SAMPLES: u32 = 40;

/// Flat length of one magnitude window: eight channels of `N_SAMPLES`.
pub const WINDOW_LEN: usize = 320;

/// Consecutive invalid samples that force a switch of merging unit.
pub const INVALID_SAMPLE_LIMIT: u32 = 10;

/// Dispersion error, in parts per million, at and above which the
/// outlier merging unit is abandoned.
pub const ERROR_LIMIT_PPM: u64 = 250_000;

/// Identity of the first merging unit (ASCII "4000").
pub const SV_ID_MU1: u32 = 0x3430_3030;

/// Identity of the second merging unit (ASCII "4001").
pub const SV_ID_MU2: u32 = 0x3430_3031;

/// States of the frame processor.
#[derive(Debug, Clone, Copy, PartialEq, Eq, Structural)]
pub enum State {
    Initial,
    GetSample,
    Questionable,
    Invalid,
    Valid,
    CompleteSample,
    CheckErrorPercentage,
    ToogleMU,
    CompleteCycle,
}

/// The mathematical state of a frame processor: its exec twin's fields
/// with the windows as sequences.
pub ghost struct ProcState {
    pub state: State,
    pub cont_smp_inv: u32,
    pub cont_smp_valid_sv_id_1: u32,
    pub cont_smp_valid_sv_id_2: u32,
    pub error_percentage: u64,
    pub buffer_mu1: Seq<i32>,
    pub buffer_mu2: Seq<i32>,
    pub toggle_mu: bool,
}

/// An all-zero magnitude window.
pub open spec fn spec_zero_window() -> Seq<i32> {
    Seq::new(WINDOW_LEN as nat, |i: int| 0i32)
}

/// The state a sample's quality sum sends the processor to: zero is
/// valid, below three invalid, three and above questionable.
pub open spec fn spec_classify(quality_sum: u32) -> State {
    if quality_sum == 0 {
        State::Valid
    } else if quality_sum < 3 {
        State::Invalid
    } else {
        State::Questionable
    }
}

/// Magnitude of an integer.
pub open spec fn spec_abs(x: int) -> int {
    if x >= 0 {
        x
    } else {
        -x
    }
}

/// One dispersion term in parts per million: the relative step from
/// `from` to `to`, rounded towards zero; zero when `from` is zero.
pub open spec fn spec_ratio_ppm(to: i32, from: i32) -> int {
    if from == 0 {
        0
    } else {
        let mag = (spec_abs(to - from) * 1_000_000) / spec_abs(from as int);
        if (to >= from) == (from > 0) {
            mag
        } else {
            -mag
        }
    }
}

/// Sum of the first `n` dispersion terms between two windows.
pub open spec fn spec_disp_sum(to: Seq<i32>, from: Seq<i32>, n: int) -> int
    decreases n,
{
    if n <= 0 {
        0
    } else {
        spec_disp_sum(to, from, n - 1) + spec_ratio_ppm(to[n - 1], from[n - 1])
    }
}

impl ProcState {
    /// Dispersion error of the second unit against the first, parts per
    /// million: magnitude of the mean relative step from unit one.
    pub open spec fn spec_error_x(self) -> int {
        spec_abs(spec_disp_sum(self.buffer_mu2, self.buffer_mu1, WINDOW_LEN as int)) / (
        WINDOW_LEN as int)
    }

    /// Dispersion error of the first unit against the second.
    pub open spec fn spec_error_y(self) -> int {
        spec_abs(spec_disp_sum(self.buffer_mu1, self.buffer_mu2, WINDOW_LEN as int)) / (
        WINDOW_LEN as int)
    }

    /// Classify the frame's quality sum.
    pub open spec fn spec_classify_step(self, frame: EthernetFrame) -> ProcState {
        ProcState {
            state: spec_classify(frame.payload.apdu.logical_node.spec_quality_sum()),
            ..self
        }
    }

    /// One idle tick: only the initial and the questionable state move.
    pub open spec fn spec_transition(self) -> ProcState {
        match self.state {
            State::Initial => ProcState { state: State::GetSample, ..self },
            State::Questionable => ProcState { state: State::CompleteSample, ..self },
            _ => self,
        }
    }

    /// Count one invalid sample; at the limit, move to the toggle.
    pub open spec fn spec_invalid_step(self) -> ProcState {
        let bumped = (self.cont_smp_inv + 1) as u32;
        ProcState {
            cont_smp_inv: bumped,
            state: if bumped < INVALID_SAMPLE_LIMIT {
                State::CompleteSample
            } else {
                State::ToogleMU
            },
            ..self
        }
    }

    /// A window with one sample of all eight channels written at `fill`.
    pub open spec fn spec_store(buf: Seq<i32>, fill: int, mags: Seq<i32>) -> Seq<i32> {
        buf.update(fill, mags[0]).update(40 + fill, mags[1]).update(80 + fill, mags[2]).update(
            120 + fill,
            mags[3],
        ).update(160 + fill, mags[4]).update(200 + fill, mags[5]).update(240 + fill, mags[6]).update(
            280 + fill,
            mags[7],
        )
    }

    /// Store a valid sample into the window its identity selects; when
    /// both windows are full, move on to the error check.
    pub open spec fn spec_valid_step(self, frame: EthernetFrame) -> ProcState {
        let mags = frame.payload.apdu.logical_node.spec_magnitudes();
        let sv_id = frame.payload.apdu.sv_id;
        let p1 = if sv_id == SV_ID_MU1 && self.cont_smp_valid_sv_id_1 < N_SAMPLES {
            ProcState {
                buffer_mu1: ProcState::spec_store(
                    self.buffer_mu1,
                    self.cont_smp_valid_sv_id_1 as int,
                    mags,
                ),
                cont_smp_valid_sv_id_1: (self.cont_smp_valid_sv_id_1 + 1) as u32,
                ..self
            }
        } else {
            self
        };
        let p2 = if sv_id == SV_ID_MU2 && p1.cont_smp_valid_sv_id_2 < N_SAMPLES {
            ProcState {
                buffer_mu2: ProcState::spec_store(
                    p1.buffer_mu2,
                    p1.cont_smp_valid_sv_id_2 as int,
                    mags,
                ),
                cont_smp_valid_sv_id_2: (p1.cont_smp_valid_sv_id_2 + 1) as u32,
                ..p1
            }
        } else {
            p1
        };
        let full = p2.cont_smp_valid_sv_id_1 >= N_SAMPLES && p2.cont_smp_valid_sv_id_2
            >= N_SAMPLES;
        ProcState {
            state: if full {
                State::CheckErrorPercentage
            } else {
                State::CompleteSample
            },
            ..p2
        }
    }

    /// Evaluate the dispersion error: keep the inlier unit, toggle away
    /// from the outlier when the error reaches the limit.
    pub open spec fn spec_check_error_step(self) -> ProcState {
        let error_x = self.spec_error_x();
        let error_y = self.spec_error_y();
        let err = if error_x >= error_y {
            error_x
        } else {
            error_y
        };
        let next = if err >= ERROR_LIMIT_PPM {
            if error_x <= error_y {
                if !self.toggle_mu {
                    State::CompleteCycle
                } else {
                    State::ToogleMU
                }
            } else {
                if self.toggle_mu {
                    State::CompleteCycle
                } else {
                    State::ToogleMU
                }
            }
        } else {
            State::CompleteCycle
        };
        ProcState { state: next, error_percentage: err as u64, ..self }
    }

    /// Flip the elected merging unit.
    pub open spec fn spec_toggle_step(self) -> ProcState {
        ProcState { toggle_mu: !self.toggle_mu, state: State::CompleteCycle, ..self }
    }

    /// Clear counters, error and windows; the state is left alone.
    pub open spec fn spec_reset_step(self) -> ProcState {
        ProcState {
            cont_smp_inv: 0,
            cont_smp_valid_sv_id_1: 0,
            cont_smp_valid_sv_id_2: 0,
            error_percentage: 0,
            buffer_mu1: spec_zero_window(),
            buffer_mu2: spec_zero_window(),
            ..self
        }
    }
}

/// How many steps a state is from completing the frame's cycle.
pub open spec fn spec_rank(s: State) -> nat {
    match s {
        State::Initial => 6,
        State::GetSample => 5,
        State::Valid => 4,
        State::Invalid => 4,
        State::Questionable => 4,
        State::CheckErrorPercentage => 3,
        State::ToogleMU => 2,
        State::CompleteSample => 1,
        State::CompleteCycle => 1,
    }
}

/// Run the processor on one frame until its cycle completes: each step
/// is the state's handler followed by the idle tick, exactly as the
/// processing loop takes them, and the machine is left gathering the
/// next sample.
pub open spec fn spec_run(p: ProcState, frame: EthernetFrame) -> ProcState
    decreases spec_rank(p.state),
{
    match p.state {
        State::Initial => spec_run(p.spec_transition(), frame),
        State::GetSample => spec_run(p.spec_classify_step(frame).spec_transition(), frame),
        State::Questionable => spec_run(p.spec_transition(), frame),
        State::Valid => spec_run(p.spec_valid_step(frame).spec_transition(), frame),
        State::Invalid => spec_run(p.spec_invalid_step().spec_transition(), frame),
        State::CheckErrorPercentage => spec_run(p.spec_check_error_step().spec_transition(), frame),
        State::ToogleMU => spec_run(p.spec_toggle_step().spec_transition(), frame),
        State::CompleteSample => ProcState { state: State::GetSample, ..p },
        State::CompleteCycle => ProcState { state: State::GetSample, ..p.spec_reset_step() },
    }
}

/// The frame processor: both election triggers over one state machine,
/// the two magnitude windows, and the elected-unit toggle.
#[derive(Debug)]
pub struct FrameProcessor {
    pub state: State,
    /// Consecutive invalid samples on the active unit.
    pub cont_smp_inv: u32,
    /// Valid samples stored in the first unit's window.
    pub cont_smp_valid_sv_id_1: u32,
    /// Valid samples stored in the second unit's window.
    pub cont_smp_valid_sv_id_2: u32,
    /// Most recent dispersion error, parts per million.
    pub error_percentage: u64,
    /// First unit's window, eight channels times `N_SAMPLES`, channel-major.
    pub buffer_mu1: Vec<i32>,
    /// Second unit's window, laid out the same way.
    pub buffer_mu2: Vec<i32>,
    /// False elects the first merging unit, true the second.
    pub toggle_mu: bool,
}

impl View for FrameProcessor {
    type V = ProcState;

    open spec fn view(&self) -> ProcState {
        ProcState {
            state: self.state,
            cont_smp_inv: self.cont_smp_inv,
            cont_smp_valid_sv_id_1: self.cont_smp_valid_sv_id_1,
            cont_smp_valid_sv_id_2: self.cont_smp_valid_sv_id_2,
            error_percentage: self.error_percentage,
            buffer_mu1: self.buffer_mu1@,
            buffer_mu2: self.buffer_mu2@,
            toggle_mu: self.toggle_mu,
        }
    }
}

/// A window of `WINDOW_LEN` zeroes.
fn zero_window() -> (r: Vec<i32>)
    ensures
        r@ == spec_zero_window(),
{
    let mut r: Vec<i32> = Vec::new();
    let mut k: usize = 0;
    while k < WINDOW_LEN
        invariant
            k <= WINDOW_LEN,
            r@.len() == k,
            forall|i: int| 0 <= i < k ==> r@[i] == 0i32,
        decreases WINDOW_LEN - k,
    {
        r.push(0);
        k = k + 1;
    }
    proof {
        assert(r@ =~= spec_zero_window());
    }
    r
}

impl FrameProcessor {
    /// The processor's structural invariant: full-size windows, fill
    /// counters within the window, and an invalid counter under the
    /// limit between frames.
    pub open spec fn wf(self) -> bool {
        &&& self@.buffer_mu1.len() == WINDOW_LEN
        &&& self@.buffer_mu2.len() == WINDOW_LEN
        &&& self.cont_smp_valid_sv_id_1 <= N_SAMPLES
        &&& self.cont_smp_valid_sv_id_2 <= N_SAMPLES
        &&& self.cont_smp_inv < INVALID_SAMPLE_LIMIT
    }

    /// A fresh processor: initial state, everything zero, first unit
    /// elected.
    pub fn new() -> (r: Self)
        ensures
            r.wf(),
            r@.state == State::Initial,
            r@.cont_smp_inv == 0,
            r@.cont_smp_valid_sv_id_1 == 0,
            r@.cont_smp_valid_sv_id_2 == 0,
            r@.error_percentage == 0,
            r@.buffer_mu1 == spec_zero_window(),
            r@.buffer_mu2 == spec_zero_window(),
            r@.toggle_mu == false,
    {
        Self {
            state: State::Initial,
            cont_smp_inv: 0,
            cont_smp_valid_sv_id_1: 0,
            cont_smp_valid_sv_id_2: 0,
            error_percentage: 0,
            buffer_mu1: zero_window(),
            buffer_mu2: zero_window(),
            toggle_mu: false,
        }
    }

    /// The idle tick.
    pub fn transition(&mut self)
        ensures
            final(self)@ == old(self)@.spec_transition(),
    {
        match self.state {
            State::Initial => {
                self.state = State::GetSample;
            },
            State::GetSample => {},
            State::Invalid => {},
            State::Valid => {},
            State::Questionable => {
                self.state = State::CompleteSample;
            },
            State::CompleteSample => {},
            State::CheckErrorPercentage => {},
            State::ToogleMU => {},
            State::CompleteCycle => {},
        }
    }

    /// Classify the sample's quality sum.
    pub fn valid_qual_smp(&mut self, frame: &EthernetFrame)
        ensures
            final(self)@ == old(self)@.spec_classify_step(*frame),
    {
        let qual_message = frame.payload.apdu.logical_node.sum_extracted_q();
        if qual_message == 0x00 {
            self.state = State::Valid;
        } else if qual_message < 0x03 {
            self.state = State::Invalid;
        } else {
            self.state = State::Questionable;
        }
    }

    /// Count one invalid sample; at the limit, move to the toggle.
    pub fn valid_cont_smp_inv(&mut self)
        requires
            old(self).cont_smp_inv < INVALID_SAMPLE_LIMIT,
        ensures
            final(self)@ == old(self)@.spec_invalid_step(),
    {
        self.cont_smp_inv = self.cont_smp_inv + 1;
        if self.cont_smp_inv < INVALID_SAMPLE_LIMIT {
            self.state = State::CompleteSample;
        } else {
            self.state = State::ToogleMU;
        }
    }

    /// Store a valid sample's magnitudes in the window its identity
    /// selects; when both windows are full, move on to the error check.
    pub fn valid_cont_smp_valid(&mut self, frame: &EthernetFrame)
        requires
            old(self).wf(),
        ensures
            final(self)@ == old(self)@.spec_valid_step(*frame),
            final(self).wf() || final(self)@.state == State::CheckErrorPercentage,
            final(self).cont_smp_valid_sv_id_1 <= N_SAMPLES,
            final(self).cont_smp_valid_sv_id_2 <= N_SAMPLES,
            final(self)@.buffer_mu1.len() == WINDOW_LEN,
            final(self)@.buffer_mu2.len() == WINDOW_LEN,
            final(self).cont_smp_inv == old(self).cont_smp_inv,
    {
        let magnitude = frame.payload.apdu.logical_node.extract_v();
        if frame.payload.apdu.sv_id == SV_ID_MU1 {
            let counter = self.cont_smp_valid_sv_id_1 as usize;
            if counter < N_SAMPLES as usize {
                self.buffer_mu1[counter] = magnitude[0];
                self.buffer_mu1[40 + counter] = magnitude[1];
                self.buffer_mu1[80 + counter] = magnitude[2];
                self.buffer_mu1[120 + counter] = magnitude[3];
                self.buffer_mu1[160 + counter] = magnitude[4];
                self.buffer_mu1[200 + counter] = magnitude[5];
                self.buffer_mu1[240 + counter] = magnitude[6];
                self.buffer_mu1[280 + counter] = magnitude[7];
                self.cont_smp_valid_sv_id_1 = self.cont_smp_valid_sv_id_1 + 1;
            }
        }
        if frame.payload.apdu.sv_id == SV_ID_MU2 {
            let counter = self.cont_smp_valid_sv_id_2 as usize;
            if counter < N_SAMPLES as usize {
                self.buffer_mu2[counter] = magnitude[0];
                self.buffer_mu2[40 + counter] = magnitude[1];
                self.buffer_mu2[80 + counter] = magnitude[2];
                self.buffer_mu2[120 + counter] = magnitude[3];
                self.buffer_mu2[160 + counter] = magnitude[4];
                self.buffer_mu2[200 + counter] = magnitude[5];
                self.buffer_mu2[240 + counter] = magnitude[6];
                self.buffer_mu2[280 + counter] = magnitude[7];
                self.cont_smp_valid_sv_id_2 = self.cont_smp_valid_sv_id_2 + 1;
            }
        }
        if self.cont_smp_valid_sv_id_1 < N_SAMPLES && self.cont_smp_valid_sv_id_2 < N_SAMPLES {
            self.state = State::CompleteSample;
        } else if self.cont_smp_valid_sv_id_1 >= N_SAMPLES && self.cont_smp_valid_sv_id_2
            >= N_SAMPLES {
            self.state = State::CheckErrorPercentage;
        } else {
            self.state = State::CompleteSample;
        }
    }

    /// Flip the elected merging unit and complete the cycle.
    pub fn toogle_sv(&mut self)
        ensures
            final(self)@ == old(self)@.spec_toggle_step(),
    {
        self.toggle_mu = !self.toggle_mu;
        self.state = State::CompleteCycle;
    }

    /// The elected merging unit: false for the first, true for the
    /// second.
    pub fn get_toogle_mu(&mut self) -> (r: bool)
        ensures
            *final(self) == *old(self),
            r == old(self).toggle_mu,
    {
        self.toggle_mu
    }

    /// Clear counters, error and windows after a completed cycle.
    pub fn reset_variables(&mut self)
        ensures
            final(self)@ == old(self)@.spec_reset_step(),
    {
        self.cont_smp_inv = 0;
        self.cont_smp_valid_sv_id_1 = 0;
        self.cont_smp_valid_sv_id_2 = 0;
        self.error_percentage = 0;
        self.buffer_mu1 = zero_window();
        self.buffer_mu2 = zero_window();
    }

    /// A completed sample changes nothing.
    pub fn keep_variables(&mut self)
        ensures
            *final(self) == *old(self),
    {
    }
}

/// Largest magnitude of one dispersion term: the widest 32-bit step,
/// scaled to parts per million.
const RATIO_PPM_BOUND: i64 = 4_294_967_295_000_000;

/// One dispersion term, exactly as specified.
fn ratio_ppm(to: i32, from: i32) -> (r: i64)
    ensures
        r == spec_ratio_ppm(to, from),
        -RATIO_PPM_BOUND <= r <= RATIO_PPM_BOUND,
{
    if from == 0 {
        return 0;
    }
    let diff_abs: u64 = if to >= from {
        (to as i64 - from as i64) as u64
    } else {
        (from as i64 - to as i64) as u64
    };
    let from_abs: u64 = if from >= 0 {
        from as u64
    } else {
        (-(from as i64)) as u64
    };
    let mag: u64 = diff_abs * 1_000_000 / from_abs;
    proof {
        vstd::arithmetic::div_mod::lemma_div_pos_is_pos(diff_abs as int * 1_000_000, from_abs as int);
        vstd::arithmetic::div_mod::lemma_div_nonincreasing(
            diff_abs as int * 1_000_000,
            from_abs as int,
        );
    }
    if (to >= from) == (from > 0) {
        mag as i64
    } else {
        -(mag as i64)
    }
}

/// Sum every dispersion term between two full windows.
fn disp_sum(to: &Vec<i32>, from: &Vec<i32>) -> (r: i64)
    requires
        to@.len() == WINDOW_LEN,
        from@.len() == WINDOW_LEN,
    ensures
        r == spec_disp_sum(to@, from@, WINDOW_LEN as int),
        -320 * RATIO_PPM_BOUND <= r <= 320 * RATIO_PPM_BOUND,
{
    let mut s: i64 = 0;
    let mut k: usize = 0;
    while k < WINDOW_LEN
        invariant
            to@.len() == WINDOW_LEN,
            from@.len() == WINDOW_LEN,
            k <= WINDOW_LEN,
            s == spec_disp_sum(to@, from@, k as int),
            -(k as int) * RATIO_PPM_BOUND <= s <= (k as int) * RATIO_PPM_BOUND,
        decreases WINDOW_LEN - k,
    {
        let t = ratio_ppm(to[k], from[k]);
        s = s + t;
        k = k + 1;
    }
    s
}

impl FrameProcessor {
    /// Evaluate the windowed dispersion error and elect the inlier:
    /// below the limit the cycle completes unchanged; at or above it,
    /// the unit whose window lies farther from its peer is abandoned.
    pub fn valid_error_percentage(&mut self)
        requires
            old(self)@.buffer_mu1.len() == WINDOW_LEN,
            old(self)@.buffer_mu2.len() == WINDOW_LEN,
        ensures
            final(self)@ == old(self)@.spec_check_error_step(),
    {
        let sum_x = disp_sum(&self.buffer_mu2, &self.buffer_mu1);
        let sum_y = disp_sum(&self.buffer_mu1, &self.buffer_mu2);
        let abs_x: u64 = if sum_x >= 0 {
            sum_x as u64
        } else {
            (-sum_x) as u64
        };
        let abs_y: u64 = if sum_y >= 0 {
            sum_y as u64
        } else {
            (-sum_y) as u64
        };
        let error_x: u64 = abs_x / 320;
        let error_y: u64 = abs_y / 320;
        self.error_percentage = if error_x >= error_y {
            error_x
        } else {
            error_y
        };
        if self.error_percentage >= ERROR_LIMIT_PPM {
            if error_x <= error_y {
                if self.toggle_mu == false {
                    self.state = State::CompleteCycle;
                } else {
                    self.state = State::ToogleMU;
                }
            } else {
                if self.toggle_mu == true {
                    self.state = State::CompleteCycle;
                } else {
                    self.state = State::ToogleMU;
                }
            }
        } else {
            self.state = State::CompleteCycle;
        }
    }

    /// Drive the processor through one frame's cycle: classify the
    /// sample, count it or store it, evaluate the error when both
    /// windows are full, toggle when called for, and finish ready to
    /// gather the next sample.
    pub fn process_frame(&mut self, frame: &EthernetFrame)
        requires
            old(self).wf(),
        ensures
            final(self)@ == spec_run(old(self)@, *frame),
            final(self).wf(),
    {
        let ghost p0 = self@;
        loop
            invariant_except_break
                self@.buffer_mu1.len() == WINDOW_LEN,
                self@.buffer_mu2.len() == WINDOW_LEN,
                self.cont_smp_valid_sv_id_1 <= N_SAMPLES,
                self.cont_smp_valid_sv_id_2 <= N_SAMPLES,
                self.cont_smp_inv < INVALID_SAMPLE_LIMIT || self@.state == State::ToogleMU
                    || self@.state == State::CompleteCycle,
                spec_run(self@, *frame) == spec_run(p0, *frame),
            ensures
                self@.buffer_mu1.len() == WINDOW_LEN,
                self@.buffer_mu2.len() == WINDOW_LEN,
                self.cont_smp_valid_sv_id_1 <= N_SAMPLES,
                self.cont_smp_valid_sv_id_2 <= N_SAMPLES,
                self.cont_smp_inv < INVALID_SAMPLE_LIMIT,
                (ProcState { state: State::GetSample, ..self@ }) == spec_run(p0, *frame),
            decreases spec_rank(self@.state),
        {
            match self.state {
                State::Initial => {},
                State::GetSample => {
                    self.valid_qual_smp(frame);
                },
                State::Questionable => {},
                State::Invalid => {
                    self.valid_cont_smp_inv();
                },
                State::Valid => {
                    self.valid_cont_smp_valid(frame);
                },
                State::CompleteSample => {
                    self.keep_variables();
                    break ;
                },
                State::CheckErrorPercentage => {
                    self.valid_error_percentage();
                },
                State::ToogleMU => {
                    self.toogle_sv();
                },
                State::CompleteCycle => {
                    self.reset_variables();
                    break ;
                },
            }
            self.transition();
        }
        self.state = State::GetSample;
    }
}

/// The tagged frame a raw receive buffer carries: the untagged parse,
/// re-tagged for the egress side, check sequence as received.
pub open spec fn spec_frame_of(bytes: Seq<u8>) -> EthernetFrame {
    let rec = ReceivedEthernetFrame::spec_parse(bytes);
    EthernetFrame {
        destination: rec.destination,
        source: rec.source,
        tpid: TPID,
        tci: TCI,
        ethertype: rec.ethertype,
        payload: rec.payload,
        fcs: rec.fcs,
    }
}

/// A receive buffer reaches the state machines only when it is long
/// enough for a whole frame, carries a sampled-value EtherType or tag,
/// and its check sequence matches its bytes.
pub open spec fn spec_accepts(bytes: Seq<u8>) -> bool {
    &&& bytes.len() >= 120
    &&& (spec_u16_from_be(bytes[12], bytes[13]) == TPID || spec_u16_from_be(bytes[12], bytes[13])
        == ETHER_TYPE)
    &&& spec_frame_of(bytes).spec_checksum_ok()
}

/// Whether a frame of the given identity is republished while the
/// toggle elects the given unit.
pub open spec fn spec_elects(toggle_mu: bool, sv_id: u32) -> bool {
    (!toggle_mu && sv_id == SV_ID_MU1) || (toggle_mu && sv_id == SV_ID_MU2)
}

/// Between constant windows the dispersion sum is the single-sample
/// term taken once per stored sample.
pub proof fn lemma_disp_sum_constant(to: Seq<i32>, from: Seq<i32>, a: i32, b: i32, n: int)
    requires
        0 <= n,
        to.len() >= n,
        from.len() >= n,
        forall|i: int| 0 <= i < n ==> to[i] == a,
        forall|i: int| 0 <= i < n ==> from[i] == b,
    ensures
        spec_disp_sum(to, from, n) == n * spec_ratio_ppm(a, b),
    decreases n,
{
    let r = spec_ratio_ppm(a, b);
    if n > 0 {
        lemma_disp_sum_constant(to, from, a, b, n - 1);
        assert((n - 1) * r + r == n * r) by (nonlinear_arith);
    } else {
        assert(0 * r == 0) by (nonlinear_arith);
    }
}

/// With both windows full of constant magnitudes, the windowed
/// dispersion errors are exactly the two single-sample relative steps:
/// the mean over the window changes nothing.
pub proof fn lemma_error_constant_windows(p: ProcState, a: i32, b: i32)
    requires
        p.buffer_mu1.len() == WINDOW_LEN,
        p.buffer_mu2.len() == WINDOW_LEN,
        forall|i: int| 0 <= i < WINDOW_LEN ==> p.buffer_mu1[i] == a,
        forall|i: int| 0 <= i < WINDOW_LEN ==> p.buffer_mu2[i] == b,
    ensures
        p.spec_error_x() == spec_abs(spec_ratio_ppm(b, a)),
        p.spec_error_y() == spec_abs(spec_ratio_ppm(a, b)),
{
    let rx = spec_ratio_ppm(b, a);
    let ry = spec_ratio_ppm(a, b);
    lemma_disp_sum_constant(p.buffer_mu2, p.buffer_mu1, b, a, WINDOW_LEN as int);
    lemma_disp_sum_constant(p.buffer_mu1, p.buffer_mu2, a, b, WINDOW_LEN as int);
    assert(spec_abs(320 * rx) == 320 * spec_abs(rx)) by (nonlinear_arith);
    assert(spec_abs(320 * ry) == 320 * spec_abs(ry)) by (nonlinear_arith);
    vstd::arithmetic::div_mod::lemma_div_multiples_vanish(spec_abs(rx), 320);
    vstd::arithmetic::div_mod::lemma_div_multiples_vanish(spec_abs(ry), 320);
}

impl FrameProcessor {
    /// Take one raw receive buffer through the whole pipeline: filter
    /// by EtherType, parse, check the received check sequence, elect,
    /// drive the state machine, and hand back the frame to republish —
    /// resealed — when its identity matches the elected unit. A buffer
    /// that fails any check is dropped with the processor untouched.
    pub fn ingest_frame(&mut self, bytes: &[u8]) -> (r: Option<EthernetFrame>)
        requires
            old(self).wf(),
        ensures
            final(self).wf(),
            !spec_accepts(bytes@) ==> r is None && *final(self) == *old(self),
            spec_accepts(bytes@) ==> final(self)@ == spec_run(old(self)@, spec_frame_of(bytes@)),
            spec_accepts(bytes@) ==> (r is Some <==> spec_elects(
                old(self).toggle_mu,
                spec_frame_of(bytes@).payload.apdu.sv_id,
            )),
            spec_accepts(bytes@) && r is Some ==> r == Some(spec_frame_of(bytes@).spec_sealed()),
    {
        if bytes.len() < 14 {
            return None;
        }
        let ethertype = u16_from_be(bytes[12], bytes[13]);
        if !(ethertype == TPID || ethertype == ETHER_TYPE) {
            return None;
        }
        let received = match ReceivedEthernetFrame::from_bytes(bytes) {
            Ok(f) => f,
            Err(_) => {
                return None;
            },
        };
        let frame = EthernetFrame::new(
            received.destination,
            received.source,
            TPID,
            TCI,
            received.ethertype,
            received.payload,
            received.fcs,
        );
        if !frame.verify_checksum() {
            return None;
        }
        let elected = (!self.toggle_mu && frame.payload.apdu.sv_id == SV_ID_MU1) || (self.toggle_mu
            && frame.payload.apdu.sv_id == SV_ID_MU2);
        self.process_frame(&frame);
        if elected {
            let again = ReceivedEthernetFrame {
                destination: frame.destination,
                source: frame.source,
                ethertype: frame.ethertype,
                payload: frame.payload,
                fcs: frame.fcs,
            };
            Some(ReceivedEthernetFrame::convert_received_ethernet_frame_into_ethernet_frame(again))
        } else {
            None
        }
    }
}

} // verus!
