//! The two election state machines.
//!
//! The master machine classifies each sample of the active merging unit
//! by its quality sum and, after ten consecutive invalid samples, probes
//! the backup unit and requests a switch. The slave machine counts
//! dispersion samples and, when the windowed magnitude error between the
//! two units reaches the threshold, requests a switch of its own. While
//! the master is mid-switch it blocks the slave, which then parks with
//! cleared counters.

use vstd::prelude::*;

verus! {

/// States of the master (quality) state machine.
#[derive(Debug, Clone, Copy, PartialEq, Eq, Structural)]
pub enum MasterState {
    Initial,
    GetSmpQuality,
    ResetQuality,
    Valid,
    Questionable,
    Invalid,
    VerifyBackupMUPrincipal,
    SwitchToBackupSmp,
    ToogleMUQuality,
}

/// States of the slave (dispersion) state machine.
#[derive(Debug, Clone, Copy, PartialEq, Eq, Structural)]
pub enum SlaveState {
    GetSmpValue,
    CalculusOfDispersion,
    CheckErrorPercentage,
    KeepMU,
    ToogleMUDispersion,
    ResetDispersion,
}

/// Events consumed by the two state machines.
#[derive(Debug, Clone, Copy, PartialEq, Eq, Structural)]
pub enum Event {
    ValidSmp,
    QuestionableSmp,
    InvalidSmp,
    ContInvalidLess10,
    ContInvalidMore10,
    BackupSmpValid,
    BackupSmpInvalid,
    GetSample,
    ContSMU,
    ContKMU,
    Error25Less,
    Error25MoreEqual,
}

/// The master state machine: quality classification and the
/// consecutive-invalid failover trigger.
#[derive(Debug, Clone, Copy, PartialEq, Eq, Structural)]
pub struct MasterStateMachine {
    pub state: MasterState,
    /// While set, the slave state machine is suppressed.
    pub block_flag: bool,
    /// Consecutive invalid samples seen on the active merging unit.
    pub cont_invalid: usize,
}

impl MasterStateMachine {
    /// The machine after consuming `event`; unlisted pairs leave it
    /// unchanged.
    pub open spec fn spec_handle_event(self, event: Option<Event>) -> MasterStateMachine {
        match (self.state, event) {
            (MasterState::GetSmpQuality, Some(Event::ValidSmp)) => MasterStateMachine {
                state: MasterState::Valid,
                ..self
            },
            (MasterState::GetSmpQuality, Some(Event::QuestionableSmp)) => MasterStateMachine {
                state: MasterState::Questionable,
                ..self
            },
            (MasterState::GetSmpQuality, Some(Event::InvalidSmp)) => MasterStateMachine {
                state: MasterState::Invalid,
                ..self
            },
            (MasterState::Invalid, Some(Event::ContInvalidLess10)) => MasterStateMachine {
                state: MasterState::GetSmpQuality,
                cont_invalid: (self.cont_invalid + 1) as usize,
                ..self
            },
            (MasterState::Invalid, Some(Event::ContInvalidMore10)) => MasterStateMachine {
                state: MasterState::VerifyBackupMUPrincipal,
                ..self
            },
            (MasterState::VerifyBackupMUPrincipal, Some(Event::BackupSmpValid)) => {
                MasterStateMachine {
                    state: MasterState::SwitchToBackupSmp,
                    block_flag: true,
                    ..self
                }
            },
            (MasterState::VerifyBackupMUPrincipal, Some(Event::BackupSmpInvalid)) => {
                MasterStateMachine {
                    state: MasterState::ToogleMUQuality,
                    block_flag: true,
                    ..self
                }
            },
            _ => self,
        }
    }

    /// The machine after one idle tick; states without an automatic
    /// transition stay put.
    pub open spec fn spec_automatic_transition(self) -> MasterStateMachine {
        match self.state {
            MasterState::Initial => MasterStateMachine {
                state: MasterState::GetSmpQuality,
                ..self
            },
            MasterState::Valid => MasterStateMachine { state: MasterState::ResetQuality, ..self },
            MasterState::Questionable => MasterStateMachine {
                state: MasterState::GetSmpQuality,
                ..self
            },
            MasterState::SwitchToBackupSmp => MasterStateMachine {
                state: MasterState::ResetQuality,
                ..self
            },
            MasterState::ToogleMUQuality => MasterStateMachine {
                state: MasterState::ResetQuality,
                ..self
            },
            MasterState::ResetQuality => MasterStateMachine {
                state: MasterState::GetSmpQuality,
                block_flag: false,
                cont_invalid: 0,
                ..self
            },
            _ => self,
        }
    }

    /// A fresh machine: initial state, not blocking, counter zero.
    pub fn new() -> (r: Self)
        ensures
            r.state == MasterState::Initial,
            r.block_flag == false,
            r.cont_invalid == 0,
    {
        Self { state: MasterState::Initial, block_flag: false, cont_invalid: 0 }
    }

    /// Consume one event.
    pub fn handle_event(&mut self, event: Option<Event>)
        requires
            old(self).cont_invalid < usize::MAX,
        ensures
            *final(self) == old(self).spec_handle_event(event),
    {
        match (self.state, event) {
            (MasterState::GetSmpQuality, Some(Event::ValidSmp)) => {
                self.state = MasterState::Valid;
            },
            (MasterState::GetSmpQuality, Some(Event::QuestionableSmp)) => {
                self.state = MasterState::Questionable;
            },
            (MasterState::GetSmpQuality, Some(Event::InvalidSmp)) => {
                self.state = MasterState::Invalid;
            },
            (MasterState::Invalid, Some(Event::ContInvalidLess10)) => {
                self.cont_invalid = self.cont_invalid + 1;
                self.state = MasterState::GetSmpQuality;
            },
            (MasterState::Invalid, Some(Event::ContInvalidMore10)) => {
                self.state = MasterState::VerifyBackupMUPrincipal;
            },
            (MasterState::VerifyBackupMUPrincipal, Some(Event::BackupSmpValid)) => {
                self.block_flag = true;
                self.state = MasterState::SwitchToBackupSmp;
            },
            (MasterState::VerifyBackupMUPrincipal, Some(Event::BackupSmpInvalid)) => {
                self.block_flag = true;
                self.state = MasterState::ToogleMUQuality;
            },
            _ => {},
        }
    }

    /// Take one idle tick.
    pub fn automatic_transition(&mut self)
        ensures
            *final(self) == old(self).spec_automatic_transition(),
    {
        match self.state {
            MasterState::Initial => {
                self.state = MasterState::GetSmpQuality;
            },
            MasterState::Valid => {
                self.state = MasterState::ResetQuality;
            },
            MasterState::Questionable => {
                self.state = MasterState::GetSmpQuality;
            },
            MasterState::SwitchToBackupSmp => {
                self.state = MasterState::ResetQuality;
            },
            MasterState::ToogleMUQuality => {
                self.state = MasterState::ResetQuality;
            },
            MasterState::ResetQuality => {
                self.block_flag = false;
                self.cont_invalid = 0;
                self.state = MasterState::GetSmpQuality;
            },
            _ => {},
        }
    }

    /// The current state.
    pub fn current_state(&self) -> (r: &MasterState)
        ensures
            *r == self.state,
    {
        &self.state
    }

    /// Overwrite the blocking flag.
    pub fn set_block_flag(&mut self, block: bool)
        ensures
            *final(self) == (MasterStateMachine { block_flag: block, ..*old(self) }),
    {
        self.block_flag = block;
    }

    /// Whether the slave state machine is suppressed.
    pub fn is_blocked(&self) -> (r: bool)
        ensures
            r == self.block_flag,
    {
        self.block_flag
    }
}

/// The slave state machine: dispersion sample counting and the
/// windowed-error failover trigger.
#[derive(Debug, Clone, Copy, PartialEq, Eq, Structural)]
pub struct SlaveStateMachine {
    pub state: SlaveState,
    /// Samples counted towards a switch of merging unit.
    pub cont_smu: usize,
    /// Samples counted towards keeping the merging unit.
    pub cont_kmu: usize,
    /// Most recent dispersion error, parts per million.
    pub error: u32,
    /// Samples gathered before the error percentage is checked.
    pub n_smp: usize,
}

impl SlaveStateMachine {
    /// The machine after consuming `event`; unlisted pairs leave it
    /// unchanged.
    pub open spec fn spec_handle_event(self, event: Option<Event>) -> SlaveStateMachine {
        match (self.state, event) {
            (SlaveState::CalculusOfDispersion, Some(Event::GetSample)) => {
                let bumped = SlaveStateMachine {
                    cont_smu: (self.cont_smu + 1) as usize,
                    ..self
                };
                if bumped.cont_smu > bumped.n_smp {
                    SlaveStateMachine { state: SlaveState::CheckErrorPercentage, ..bumped }
                } else if bumped.cont_kmu > bumped.n_smp {
                    SlaveStateMachine { state: SlaveState::KeepMU, ..bumped }
                } else {
                    SlaveStateMachine { state: SlaveState::GetSmpValue, ..bumped }
                }
            },
            (SlaveState::CheckErrorPercentage, Some(Event::Error25Less)) => SlaveStateMachine {
                state: SlaveState::KeepMU,
                ..self
            },
            (SlaveState::CheckErrorPercentage, Some(Event::Error25MoreEqual)) => {
                SlaveStateMachine { state: SlaveState::ToogleMUDispersion, ..self }
            },
            _ => self,
        }
    }

    /// The machine after one idle tick.
    pub open spec fn spec_automatic_transition(self) -> SlaveStateMachine {
        match self.state {
            SlaveState::GetSmpValue => SlaveStateMachine {
                state: SlaveState::CalculusOfDispersion,
                ..self
            },
            SlaveState::ToogleMUDispersion => SlaveStateMachine {
                state: SlaveState::ResetDispersion,
                ..self
            },
            SlaveState::KeepMU => SlaveStateMachine {
                state: SlaveState::ResetDispersion,
                ..self
            },
            SlaveState::ResetDispersion => SlaveStateMachine {
                state: SlaveState::GetSmpValue,
                cont_smu: 0,
                cont_kmu: 0,
                error: 0,
                ..self
            },
            _ => self,
        }
    }

    /// One step as the arbitrator drives it: park with cleared counters
    /// while the master blocks, otherwise consume the event and tick.
    pub open spec fn spec_step_with_master(
        self,
        event: Option<Event>,
        master: MasterStateMachine,
    ) -> SlaveStateMachine {
        if master.block_flag {
            SlaveStateMachine { state: SlaveState::GetSmpValue, cont_smu: 0, cont_kmu: 0, ..self }
        } else {
            self.spec_handle_event(event).spec_automatic_transition()
        }
    }

    /// A fresh machine, gathering ten samples per check cycle.
    pub fn new() -> (r: Self)
        ensures
            r.state == SlaveState::GetSmpValue,
            r.cont_smu == 0,
            r.cont_kmu == 0,
            r.error == 0,
            r.n_smp == 9,
    {
        Self { state: SlaveState::GetSmpValue, cont_smu: 0, cont_kmu: 0, error: 0, n_smp: 9 }
    }

    /// Consume one event.
    pub fn handle_event(&mut self, event: Option<Event>)
        requires
            old(self).cont_smu < usize::MAX,
        ensures
            *final(self) == old(self).spec_handle_event(event),
    {
        match (self.state, event) {
            (SlaveState::CalculusOfDispersion, Some(Event::GetSample)) => {
                self.cont_smu = self.cont_smu + 1;
                if self.cont_smu > self.n_smp {
                    self.state = SlaveState::CheckErrorPercentage;
                } else if self.cont_kmu > self.n_smp {
                    self.state = SlaveState::KeepMU;
                } else {
                    self.state = SlaveState::GetSmpValue;
                }
            },
            (SlaveState::CheckErrorPercentage, Some(Event::Error25Less)) => {
                self.state = SlaveState::KeepMU;
            },
            (SlaveState::CheckErrorPercentage, Some(Event::Error25MoreEqual)) => {
                self.state = SlaveState::ToogleMUDispersion;
            },
            _ => {},
        }
    }

    /// Take one idle tick.
    pub fn automatic_transition(&mut self)
        ensures
            *final(self) == old(self).spec_automatic_transition(),
    {
        match self.state {
            SlaveState::GetSmpValue => {
                self.state = SlaveState::CalculusOfDispersion;
            },
            SlaveState::ToogleMUDispersion => {
                self.state = SlaveState::ResetDispersion;
            },
            SlaveState::KeepMU => {
                self.state = SlaveState::ResetDispersion;
            },
            SlaveState::ResetDispersion => {
                self.state = SlaveState::GetSmpValue;
                self.cont_smu = 0;
                self.cont_kmu = 0;
                self.error = 0;
            },
            _ => {},
        }
    }

    /// The current state.
    pub fn current_state(&self) -> (r: &SlaveState)
        ensures
            *r == self.state,
    {
        &self.state
    }

    /// Consume one event under the master's blocking flag.
    pub fn handle_event_with_master(&mut self, event: Option<Event>, master: &MasterStateMachine)
        requires
            old(self).cont_smu < usize::MAX,
        ensures
            *final(self) == old(self).spec_step_with_master(event, *master),
    {
        if master.is_blocked() {
            self.cont_kmu = 0;
            self.cont_smu = 0;
            self.state = SlaveState::GetSmpValue;
            return ;
        }
        self.handle_event(event);
        self.automatic_transition();
    }
}

/// While the master blocks, every event is absorbed: the slave parks in
/// its sample-gathering state with both counters cleared.
pub proof fn lemma_blocked_slave_parks(
    s: SlaveStateMachine,
    event: Option<Event>,
    m: MasterStateMachine,
)
    requires
        m.block_flag,
    ensures
        s.spec_step_with_master(event, m).state == SlaveState::GetSmpValue,
        s.spec_step_with_master(event, m).cont_smu == 0,
        s.spec_step_with_master(event, m).cont_kmu == 0,
{
}

/// The master after `k` invalid-sample rounds, each an invalid
/// classification followed by the below-limit counter decision.
pub open spec fn spec_invalid_rounds(m: MasterStateMachine, k: nat) -> MasterStateMachine
    decreases k,
{
    if k == 0 {
        m
    } else {
        spec_invalid_rounds(m, (k - 1) as nat).spec_handle_event(
            Some(Event::InvalidSmp),
        ).spec_handle_event(Some(Event::ContInvalidLess10))
    }
}

/// Invalid-sample rounds alone never reach the backup probe: after each
/// round the master is back in its classification state with the
/// consecutive-invalid counter grown by the number of rounds. Only the
/// over-limit decision after one further invalid sample reaches the
/// backup probe state.
pub proof fn lemma_failover_threshold(m: MasterStateMachine, k: nat)
    requires
        m.state == MasterState::GetSmpQuality,
        m.cont_invalid + k < usize::MAX,
    ensures
        spec_invalid_rounds(m, k).state == MasterState::GetSmpQuality,
        spec_invalid_rounds(m, k).cont_invalid == m.cont_invalid + k,
        spec_invalid_rounds(m, k).block_flag == m.block_flag,
        spec_invalid_rounds(m, k).spec_handle_event(Some(Event::InvalidSmp)).spec_handle_event(
            Some(Event::ContInvalidMore10),
        ).state == MasterState::VerifyBackupMUPrincipal,
    decreases k,
{
    if k > 0 {
        lemma_failover_threshold(m, (k - 1) as nat);
    }
}

/// Recovery: from the backup probe, a valid backup answer blocks the
/// slave and switches; two idle ticks later the master is classifying
/// again with the counter and the blocking flag cleared.
pub proof fn lemma_backup_recovery(m: MasterStateMachine)
    requires
        m.state == MasterState::VerifyBackupMUPrincipal,
    ensures
        ({
            let probed = m.spec_handle_event(Some(Event::BackupSmpValid));
            &&& probed.state == MasterState::SwitchToBackupSmp
            &&& probed.block_flag
            &&& probed.spec_automatic_transition().spec_automatic_transition().state
                == MasterState::GetSmpQuality
            &&& probed.spec_automatic_transition().spec_automatic_transition().cont_invalid == 0
            &&& !probed.spec_automatic_transition().spec_automatic_transition().block_flag
        }),
{
}

} // verus!
