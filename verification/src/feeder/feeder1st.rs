//! First feeder stage: a run/stop output latched from the part sensors.

use vstd::prelude::*;
use crate::bits::within_mask;

verus! {

/// Output bit of the first stage: its run lamp and solenoid.
pub const FEEDER_1ST_OUT_BIT: u16 = 0x8000;

/// Every output bit the first stage may drive.
pub const FEEDER_1ST_OUT_BIT_MASK: u16 = 0x8000;

/// Sensor bits that stop the first stage: 0x0001, 0x0008, 0x0010 and 0x0020.
pub const FEEDER_BIT_MASK: u16 = 0x0039;

/// The sensor mask is the union of the four sensor bits.
pub proof fn lemma_feeder_bit_mask()
    ensures
        FEEDER_BIT_MASK == 0x0001u16 | 0x0008u16 | 0x0010u16 | 0x0020u16,
{
    assert(0x0039u16 == 0x0001u16 | 0x0008u16 | 0x0010u16 | 0x0020u16) by (bit_vector);
}

/// Whether the first stage is feeding.
#[derive(Clone, Copy, Debug, PartialEq, Eq, Structural)]
pub enum Feeder1stState {
    Stop,
    Run,
}

/// What a [`Feeder1st`] stands for: its state and the output word it holds.
pub struct Feeder1stModel {
    pub state: Feeder1stState,
    pub d_out: u16,
}

impl Feeder1stModel {
    /// A first stage that has just been made: stopped, output off.
    pub open spec fn initial() -> Feeder1stModel {
        Feeder1stModel { state: Feeder1stState::Stop, d_out: 0 }
    }

    /// The output word that goes with a state: the output bit while the
    /// stage runs, nothing while it is stopped.
    pub open spec fn output_of(state: Feeder1stState) -> u16 {
        if state is Run {
            FEEDER_1ST_OUT_BIT
        } else {
            0
        }
    }

    /// The output word is the one that goes with the state.
    pub open spec fn wf(self) -> bool {
        self.d_out == Self::output_of(self.state)
    }

    /// The stage after one cycle with digital inputs `d_in`.  Stopped, it
    /// starts once every masked sensor bit is clear and sets its output bit;
    /// running, it stops once any masked sensor bit is set and clears the
    /// bit.  Otherwise nothing changes.
    pub open spec fn step(self, d_in: u16) -> Feeder1stModel {
        match self.state {
            Feeder1stState::Stop => if d_in & FEEDER_BIT_MASK == 0 {
                Feeder1stModel {
                    state: Feeder1stState::Run,
                    d_out: self.d_out | FEEDER_1ST_OUT_BIT,
                }
            } else {
                self
            },
            Feeder1stState::Run => if d_in & FEEDER_BIT_MASK != 0 {
                Feeder1stModel {
                    state: Feeder1stState::Stop,
                    d_out: self.d_out & !FEEDER_1ST_OUT_BIT,
                }
            } else {
                self
            },
        }
    }
}

/// One cycle keeps the output word in step with the state: the output bit is
/// set exactly while the stage runs.
pub proof fn lemma_feeder1st_step_wf(m: Feeder1stModel, d_in: u16)
    requires
        m.wf(),
    ensures
        m.step(d_in).wf(),
        m.step(d_in).d_out == Feeder1stModel::output_of(m.step(d_in).state),
{
    assert(0u16 | 0x8000u16 == 0x8000u16 && 0x8000u16 & !0x8000u16 == 0u16) by (bit_vector);
}

/// The output word of a well-formed stage never leaves the stage's own bit.
pub proof fn lemma_feeder1st_within_mask(m: Feeder1stModel)
    requires
        m.wf(),
    ensures
        within_mask(m.d_out, FEEDER_1ST_OUT_BIT_MASK),
{
    assert(0u16 & !0x8000u16 == 0 && 0x8000u16 & !0x8000u16 == 0) by (bit_vector);
}

/// The first feeder stage.
pub struct Feeder1st {
    fsm: Feeder1stFsm,
}

/// The state machine of the first stage.
struct Feeder1stFsm {
    state: Feeder1stState,
    d_out: u16,
}

impl View for Feeder1stFsm {
    type V = Feeder1stModel;

    closed spec fn view(&self) -> Feeder1stModel {
        Feeder1stModel { state: self.state, d_out: self.d_out }
    }
}

impl View for Feeder1st {
    type V = Feeder1stModel;

    closed spec fn view(&self) -> Feeder1stModel {
        self.fsm@
    }
}

impl Feeder1st {
    #[verifier::type_invariant]
    spec fn inv(self) -> bool {
        self.fsm@.wf()
    }

    pub fn new() -> (f: Self)
        ensures
            f@ == Feeder1stModel::initial(),
            f@.wf(),
        no_unwind
    {
        Feeder1st { fsm: Feeder1stFsm { state: Feeder1stState::Stop, d_out: 0 } }
    }

    /// Runs one cycle with digital inputs `d_in` and returns the stage's
    /// output word.
    pub fn update(&mut self, d_in: u16) -> (d_out: u16)
        ensures
            final(self)@ == old(self)@.step(d_in),
            d_out == final(self)@.d_out,
            old(self)@.wf(),
            final(self)@.wf(),
            d_out == Feeder1stModel::output_of(final(self)@.state),
            within_mask(d_out, FEEDER_1ST_OUT_BIT_MASK),
        no_unwind
    {
        proof {
            use_type_invariant(&*self);
            lemma_feeder1st_step_wf(self@, d_in);
            lemma_feeder1st_within_mask(self@.step(d_in));
        }
        self.fsm.update(d_in)
    }

    /// The output word the stage holds.
    pub fn d_out(&self) -> (d: u16)
        ensures
            d == self@.d_out,
            within_mask(d, FEEDER_1ST_OUT_BIT_MASK),
        no_unwind
    {
        proof {
            use_type_invariant(self);
            lemma_feeder1st_within_mask(self@);
        }
        self.fsm.d_out
    }

    /// Whether the stage is feeding.
    pub fn state(&self) -> (s: Feeder1stState)
        ensures
            s == self@.state,
        no_unwind
    {
        self.fsm.state
    }
}

impl Default for Feeder1st {
    fn default() -> (f: Self)
        ensures
            f@ == Feeder1stModel::initial(),
            f@.wf(),
    {
        Self::new()
    }
}

impl Feeder1stFsm {
    /// Runs the handler of the current state.
    fn update(&mut self, d_in: u16) -> (d_out: u16)
        ensures
            final(self)@ == old(self)@.step(d_in),
            d_out == final(self)@.d_out,
        no_unwind
    {
        match self.state {
            Feeder1stState::Stop => self.fsm_state_feeder_stop(d_in),
            Feeder1stState::Run => self.fsm_state_feeder_run(d_in),
        }
    }

    fn fsm_state_feeder_run(&mut self, d_in: u16) -> (d_out: u16)
        requires
            old(self)@.state is Run,
        ensures
            final(self)@ == old(self)@.step(d_in),
            d_out == final(self)@.d_out,
        no_unwind
    {
        if d_in & FEEDER_BIT_MASK != 0 {
            self.state = Feeder1stState::Stop;
            self.d_out &= !FEEDER_1ST_OUT_BIT;
        }
        self.d_out
    }

    fn fsm_state_feeder_stop(&mut self, d_in: u16) -> (d_out: u16)
        requires
            old(self)@.state is Stop,
        ensures
            final(self)@ == old(self)@.step(d_in),
            d_out == final(self)@.d_out,
        no_unwind
    {
        if d_in & FEEDER_BIT_MASK == 0 {
            self.state = Feeder1stState::Run;
            self.d_out |= FEEDER_1ST_OUT_BIT;
        }
        self.d_out
    }
}

} // verus!
