//! Third feeder stage: a clamp-and-pick carriage with two clips.
//!
//! The carriage waits for the second stage to present a part, fetches it with
//! the first clip open, carries it to the hand-over position with the second
//! clip armed, releases it and returns empty.

use vstd::prelude::*;
use crate::bits::{lemma_clear_bits_within_mask, lemma_set_bits_within_mask, within_mask};
use crate::servo::servo::{MoverModel, ServoMover};
use crate::servo::servo_pdo::{ServoRxPdo, ServoTxPdo};

verus! {

/// First clip.
pub const CLIP_01_BIT: u16 = 0x0008;

/// Second clip.
pub const CLIP_02_BIT: u16 = 0x0010;

/// Every output bit the third stage may drive.
pub const FEEDER_3RD_OUT_BIT_MASK: u16 = 0x0018;

/// Sensor that sees the part at the first position.
pub const SENSOR_3: u16 = 0x0004;

pub const FEEDER_3RD_POS_01: i32 = -271_099_293;

pub const FEEDER_3RD_POS_02: i32 = -258_935_271;

pub const FEEDER_3RD_POS_03: i32 = -1_784_845;

pub const FEEDER_3RD_POS_04: i32 = 39_721_881;

/// Cycles a clip is given to open or close.
pub const CLIP_CYCLES: u32 = 200;

/// Cycles the carriage idles before and after it returns empty.
pub const IDLE_CYCLES: u32 = 300;

/// The states of the third stage, in the order they are passed through.
#[derive(Clone, Copy, Debug, PartialEq, Eq, Structural)]
pub enum Feeder3rdState {
    Init,
    StartPending,
    StartMove04,
    StartMove04Clip,
    StartMove01,
    Pos1Holding,
    Pos1ToTakePart,
    StartMove02,
    Pos02Release,
    Pos01Empty,
    EmptyPendingStep1,
    EmptyPendingStep2,
}

/// What a [`Feeder3rd`] stands for.
pub struct Feeder3rdModel {
    pub state: Feeder3rdState,
    /// Cycles left on the timer of the current state.
    pub kick_count: nat,
    /// Set when the second stage presents a part; consumed on leaving
    /// `StartPending`.
    pub next_trigger: bool,
    /// Whether `Pos1Holding` waits for the part sensor before the pick.
    pub sensor_gated: bool,
    pub servo_mover: MoverModel,
    pub d_out: u16,
    pub rx_pdo: ServoRxPdo,
}

impl Feeder3rdModel {
    /// A third stage that has just been made: clips open, carriage at rest.
    pub open spec fn initial(sensor_gated: bool) -> Feeder3rdModel {
        Feeder3rdModel {
            state: Feeder3rdState::Init,
            kick_count: 0,
            next_trigger: false,
            sensor_gated,
            servo_mover: MoverModel::initial(),
            d_out: 0,
            rx_pdo: ServoRxPdo {
                control_word: 0xF,
                target_position: 0,
                profile_velocity: 0,
                profile_acceleration: 0,
                profile_deceleration: 0,
                mode_of_operation: 1,
            },
        }
    }

    /// True in the states that only count their timer down.
    pub open spec fn timed(self) -> bool {
        self.state is StartMove04Clip || self.state is Pos1ToTakePart || self.state is Pos02Release
            || self.state is EmptyPendingStep1 || self.state is EmptyPendingStep2
    }

    /// A running timer always has at least one cycle left, and the output
    /// never leaves the stage's own bits.
    pub open spec fn wf(self) -> bool {
        &&& self.timed() ==> self.kick_count >= 1
        &&& within_mask(self.d_out, FEEDER_3RD_OUT_BIT_MASK)
    }

    /// The carriage mover as it is driven in this cycle: in `Init` it is
    /// first asked for the third position.
    pub open spec fn driven_mover(self) -> MoverModel {
        if self.state is Init {
            self.servo_mover.with_target(FEEDER_3RD_POS_03)
        } else {
            self.servo_mover
        }
    }

    /// True in the states whose cycle drives the carriage mover.
    pub open spec fn moving(self) -> bool {
        ||| self.state is Init
        ||| self.state is StartMove04
        ||| self.state is StartMove01
        ||| self.state is StartMove02
        ||| self.state is Pos01Empty && self.kick_count == 0
    }

    /// The command image the stage holds after a cycle with feedback
    /// `servo_tx`: the mover's next command in the states that drive the
    /// carriage, the image as it was in every other state.
    pub open spec fn command(self, servo_tx: ServoTxPdo) -> ServoRxPdo {
        if self.moving() {
            self.driven_mover().command(servo_tx, self.rx_pdo)
        } else {
            self.rx_pdo
        }
    }

    /// Whether this cycle finishes taking the part: the edge that lets the
    /// second stage return its shuttle.
    pub open spec fn takes_part(self) -> bool {
        self.state is Pos1ToTakePart && self.kick_count == 1
    }

    /// Whether the pick may begin in `Pos1Holding`.
    pub open spec fn may_pick(self, d_in: u16) -> bool {
        !self.sensor_gated || d_in & SENSOR_3 != 0
    }

    /// This stage with the mover driven for one cycle, in `next` if the move
    /// is complete.
    pub open spec fn moved(self, servo_tx: ServoTxPdo, next: Feeder3rdModel) -> Feeder3rdModel {
        let mover = self.driven_mover();
        if mover.completes(servo_tx) {
            Feeder3rdModel {
                servo_mover: mover.step(servo_tx),
                rx_pdo: mover.command(servo_tx, self.rx_pdo),
                ..next
            }
        } else {
            Feeder3rdModel {
                servo_mover: mover.step(servo_tx),
                rx_pdo: mover.command(servo_tx, self.rx_pdo),
                ..self
            }
        }
    }

    /// This stage with its timer ticked, in `next` if the timer ran out.
    pub open spec fn timed_out(self, next: Feeder3rdModel) -> Feeder3rdModel {
        if self.kick_count == 1 {
            next
        } else {
            Feeder3rdModel { kick_count: (self.kick_count - 1) as nat, ..self }
        }
    }

    /// The stage after one cycle with feedback `servo_tx` and digital inputs
    /// `d_in`.
    pub open spec fn step(self, servo_tx: ServoTxPdo, d_in: u16) -> Feeder3rdModel {
        match self.state {
            Feeder3rdState::Init => self.moved(
                servo_tx,
                Feeder3rdModel {
                    state: Feeder3rdState::StartPending,
                    d_out: self.d_out | CLIP_01_BIT,
                    ..self
                },
            ),
            Feeder3rdState::StartPending => if self.next_trigger {
                Feeder3rdModel {
                    state: Feeder3rdState::StartMove04,
                    servo_mover: self.servo_mover.with_target(FEEDER_3RD_POS_04),
                    next_trigger: false,
                    ..self
                }
            } else {
                self
            },
            Feeder3rdState::StartMove04 => self.moved(
                servo_tx,
                Feeder3rdModel {
                    state: Feeder3rdState::StartMove04Clip,
                    d_out: self.d_out & !CLIP_01_BIT,
                    kick_count: CLIP_CYCLES as nat,
                    ..self
                },
            ),
            Feeder3rdState::StartMove04Clip => self.timed_out(
                Feeder3rdModel {
                    state: Feeder3rdState::StartMove01,
                    servo_mover: self.servo_mover.with_target(FEEDER_3RD_POS_01),
                    kick_count: 0,
                    ..self
                },
            ),
            Feeder3rdState::StartMove01 => self.moved(
                servo_tx,
                Feeder3rdModel { state: Feeder3rdState::Pos1Holding, ..self },
            ),
            Feeder3rdState::Pos1Holding => if self.may_pick(d_in) {
                Feeder3rdModel {
                    state: Feeder3rdState::Pos1ToTakePart,
                    kick_count: CLIP_CYCLES as nat,
                    d_out: self.d_out | CLIP_02_BIT,
                    ..self
                }
            } else {
                self
            },
            Feeder3rdState::Pos1ToTakePart => self.timed_out(
                Feeder3rdModel {
                    state: Feeder3rdState::StartMove02,
                    servo_mover: self.servo_mover.with_target(FEEDER_3RD_POS_02),
                    kick_count: 0,
                    ..self
                },
            ),
            Feeder3rdState::StartMove02 => self.moved(
                servo_tx,
                Feeder3rdModel {
                    state: Feeder3rdState::Pos02Release,
                    kick_count: CLIP_CYCLES as nat,
                    d_out: self.d_out | CLIP_01_BIT,
                    ..self
                },
            ),
            Feeder3rdState::Pos02Release => self.timed_out(
                Feeder3rdModel {
                    state: Feeder3rdState::Pos01Empty,
                    servo_mover: self.servo_mover.with_target(FEEDER_3RD_POS_01),
                    kick_count: IDLE_CYCLES as nat,
                    ..self
                },
            ),
            Feeder3rdState::Pos01Empty => if self.kick_count > 0 {
                Feeder3rdModel { kick_count: (self.kick_count - 1) as nat, ..self }
            } else {
                self.moved(
                    servo_tx,
                    Feeder3rdModel {
                        state: Feeder3rdState::EmptyPendingStep1,
                        kick_count: CLIP_CYCLES as nat,
                        ..self
                    },
                )
            },
            Feeder3rdState::EmptyPendingStep1 => self.timed_out(
                Feeder3rdModel {
                    state: Feeder3rdState::EmptyPendingStep2,
                    d_out: 0,
                    kick_count: IDLE_CYCLES as nat,
                    ..self
                },
            ),
            Feeder3rdState::EmptyPendingStep2 => self.timed_out(
                Feeder3rdModel { state: Feeder3rdState::Init, kick_count: 0, ..self },
            ),
        }
    }

    /// The stage after the second stage has presented a part.
    pub open spec fn triggered(self) -> Feeder3rdModel {
        Feeder3rdModel { next_trigger: true, ..self }
    }
}

/// One cycle keeps the stage well formed.
pub proof fn lemma_feeder3rd_step_wf(m: Feeder3rdModel, servo_tx: ServoTxPdo, d_in: u16)
    requires
        m.wf(),
    ensures
        m.step(servo_tx, d_in).wf(),
        m.triggered().wf(),
{
    lemma_feeder3rd_bits_within_mask();
    lemma_set_bits_within_mask(m.d_out, CLIP_01_BIT, FEEDER_3RD_OUT_BIT_MASK);
    lemma_set_bits_within_mask(m.d_out, CLIP_02_BIT, FEEDER_3RD_OUT_BIT_MASK);
    lemma_clear_bits_within_mask(m.d_out, CLIP_01_BIT, FEEDER_3RD_OUT_BIT_MASK);
}

/// The command image after a cycle is determined by the state the cycle
/// begins in and by the carriage's feedback, whatever the digital inputs are.
pub proof fn lemma_feeder3rd_command(m: Feeder3rdModel, servo_tx: ServoTxPdo, d_in: u16)
    ensures
        m.step(servo_tx, d_in).rx_pdo == m.command(servo_tx),
        m.triggered().rx_pdo == m.rx_pdo,
{
}

/// Each clip bit, and the empty word, lies inside the stage's mask, which is
/// the union of the two clip bits.
pub proof fn lemma_feeder3rd_bits_within_mask()
    ensures
        within_mask(CLIP_01_BIT, FEEDER_3RD_OUT_BIT_MASK),
        within_mask(CLIP_02_BIT, FEEDER_3RD_OUT_BIT_MASK),
        within_mask(0, FEEDER_3RD_OUT_BIT_MASK),
        CLIP_01_BIT | CLIP_02_BIT == FEEDER_3RD_OUT_BIT_MASK,
{
    assert(0x0008u16 & !0x0018u16 == 0 && 0x0010u16 & !0x0018u16 == 0 && 0u16 & !0x0018u16 == 0
        && 0x0008u16 | 0x0010u16 == 0x0018u16) by (bit_vector);
}

/// The third feeder stage.
pub struct Feeder3rd {
    fsm: Feeder3rdFsm,
}

/// The state machine of the third stage.
struct Feeder3rdFsm {
    kick_count: u32,
    next_trigger: bool,
    sensor_gated: bool,
    state: Feeder3rdState,
    servo_mover: ServoMover,
    d_out: u16,
    rx_pdo: ServoRxPdo,
}

impl View for Feeder3rdFsm {
    type V = Feeder3rdModel;

    closed spec fn view(&self) -> Feeder3rdModel {
        Feeder3rdModel {
            state: self.state,
            kick_count: self.kick_count as nat,
            next_trigger: self.next_trigger,
            sensor_gated: self.sensor_gated,
            servo_mover: self.servo_mover@,
            d_out: self.d_out,
            rx_pdo: self.rx_pdo,
        }
    }
}

impl View for Feeder3rd {
    type V = Feeder3rdModel;

    closed spec fn view(&self) -> Feeder3rdModel {
        self.fsm@
    }
}

impl Feeder3rd {
    #[verifier::type_invariant]
    spec fn inv(self) -> bool {
        self.fsm@.wf()
    }

    /// A third stage that waits for the part sensor before it picks.
    pub fn new() -> (f: Self)
        ensures
            f@ == Feeder3rdModel::initial(true),
            f@.wf(),
        no_unwind
    {
        Self { fsm: Feeder3rdFsm::new(true) }
    }

    /// A third stage that waits for the part sensor before it picks if
    /// `sensor_gated`, and picks at once if not.
    pub fn with_sensor_gate(sensor_gated: bool) -> (f: Self)
        ensures
            f@ == Feeder3rdModel::initial(sensor_gated),
            f@.wf(),
        no_unwind
    {
        Self { fsm: Feeder3rdFsm::new(sensor_gated) }
    }

    /// Runs one cycle with the carriage feedback `servo_tx` and the digital
    /// inputs `d_in`.  Returns the stage's output word, the command image for
    /// the carriage drive, and whether this cycle finished taking the part.
    pub fn update(&mut self, servo_tx: ServoTxPdo, d_in: u16) -> (out: (u16, ServoRxPdo, bool))
        ensures
            old(self)@.wf(),
            final(self)@.wf(),
            final(self)@ == old(self)@.step(servo_tx, d_in),
            out.0 == final(self)@.d_out,
            out.1 == final(self)@.rx_pdo,
            out.2 == old(self)@.takes_part(),
            within_mask(out.0, FEEDER_3RD_OUT_BIT_MASK),
        no_unwind
    {
        proof {
            use_type_invariant(&*self);
            lemma_feeder3rd_step_wf(self@, servo_tx, d_in);
        }
        self.fsm.update(servo_tx, d_in)
    }

    /// Tells the stage that the second stage presents a part.
    pub fn trigger_next(&mut self)
        ensures
            final(self)@ == old(self)@.triggered(),
            final(self)@.wf(),
        no_unwind
    {
        proof {
            use_type_invariant(&*self);
        }
        self.fsm.next_trigger = true;
    }

    /// The current state.
    pub fn state(&self) -> (s: Feeder3rdState)
        ensures
            s == self@.state,
        no_unwind
    {
        self.fsm.state
    }

    /// The output word the stage holds.
    pub fn d_out(&self) -> (d: u16)
        ensures
            d == self@.d_out,
            within_mask(d, FEEDER_3RD_OUT_BIT_MASK),
        no_unwind
    {
        proof {
            use_type_invariant(self);
        }
        self.fsm.d_out
    }

    /// The mover of the carriage drive.
    pub fn servo_mover(&self) -> (mover: &ServoMover)
        ensures
            mover@ == self@.servo_mover,
        no_unwind
    {
        &self.fsm.servo_mover
    }

    /// Whether the next cycle drives the carriage mover: it does in `Init`,
    /// in the three move states, and in `Pos01Empty` once the idle time is
    /// over.
    pub fn drives_mover(&self) -> (driven: bool)
        ensures
            driven == self@.moving(),
        no_unwind
    {
        match self.fsm.state {
            Feeder3rdState::Init
            | Feeder3rdState::StartMove04
            | Feeder3rdState::StartMove01
            | Feeder3rdState::StartMove02 => true,
            Feeder3rdState::Pos01Empty => self.fsm.kick_count == 0,
            _ => false,
        }
    }

    /// Cycles left on the timer of the current state.
    pub fn kick_count(&self) -> (n: u32)
        ensures
            n == self@.kick_count,
        no_unwind
    {
        self.fsm.kick_count
    }
}

impl Default for Feeder3rd {
    fn default() -> (f: Self)
        ensures
            f@ == Feeder3rdModel::initial(true),
            f@.wf(),
    {
        Self::new()
    }
}

impl Feeder3rdFsm {
    fn new(sensor_gated: bool) -> (f: Self)
        ensures
            f@ == Feeder3rdModel::initial(sensor_gated),
            f@.wf(),
        no_unwind
    {
        proof {
            lemma_feeder3rd_bits_within_mask();
        }
        Self {
            kick_count: 0,
            next_trigger: false,
            sensor_gated,
            state: Feeder3rdState::Init,
            servo_mover: ServoMover::new(),
            d_out: 0,
            rx_pdo: ServoRxPdo {
                control_word: 0xF,
                target_position: 0,
                profile_velocity: 0,
                profile_acceleration: 0,
                profile_deceleration: 0,
                mode_of_operation: 1,
            },
        }
    }

    /// Runs the handler of the current state.
    fn update(&mut self, servo_tx: ServoTxPdo, d_in: u16) -> (out: (u16, ServoRxPdo, bool))
        requires
            old(self)@.wf(),
        ensures
            final(self)@ == old(self)@.step(servo_tx, d_in),
            out.0 == final(self)@.d_out,
            out.1 == final(self)@.rx_pdo,
            out.2 == old(self)@.takes_part(),
        no_unwind
    {
        match self.state {
            Feeder3rdState::Init => self.fsm_state_init(servo_tx, d_in),
            Feeder3rdState::StartPending => self.fsm_state_start_pending(servo_tx, d_in),
            Feeder3rdState::StartMove04 => self.fsm_state_start_move_04(servo_tx, d_in),
            Feeder3rdState::StartMove04Clip => self.fsm_state_start_move_04_clip(servo_tx, d_in),
            Feeder3rdState::StartMove01 => self.fsm_state_start_move_01(servo_tx, d_in),
            Feeder3rdState::Pos1Holding => self.fsm_state_pos_1_holding(servo_tx, d_in),
            Feeder3rdState::Pos1ToTakePart => self.fsm_state_pos_1_to_take_part(servo_tx, d_in),
            Feeder3rdState::StartMove02 => self.fsm_state_start_move_02(servo_tx, d_in),
            Feeder3rdState::Pos02Release => self.fsm_state_02_release(servo_tx, d_in),
            Feeder3rdState::Pos01Empty => self.fsm_state_pos_01_empty(servo_tx, d_in),
            Feeder3rdState::EmptyPendingStep1 => self.fsm_state_pos_01_empty_pending_step_1(
                servo_tx,
                d_in,
            ),
            Feeder3rdState::EmptyPendingStep2 => self.fsm_state_pos_01_empty_pending_step_2(
                servo_tx,
                d_in,
            ),
        }
    }

    fn fsm_state_init(&mut self, servo_tx: ServoTxPdo, _d_in: u16) -> (out: (u16, ServoRxPdo, bool))
        requires
            old(self)@.state is Init,
        ensures
            final(self)@ == old(self)@.step(servo_tx, _d_in),
            out == (final(self)@.d_out, final(self)@.rx_pdo, false),
        no_unwind
    {
        self.servo_mover.set_target(FEEDER_3RD_POS_03);
        if self.servo_mover.update(servo_tx, &mut self.rx_pdo) {
            self.state = Feeder3rdState::StartPending;
            self.d_out |= CLIP_01_BIT;
        }
        (self.d_out, self.rx_pdo, false)
    }

    fn fsm_state_start_pending(
        &mut self,
        _servo_tx: ServoTxPdo,
        _d_in: u16,
    ) -> (out: (u16, ServoRxPdo, bool))
        requires
            old(self)@.state is StartPending,
        ensures
            final(self)@ == old(self)@.step(_servo_tx, _d_in),
            out == (final(self)@.d_out, final(self)@.rx_pdo, false),
        no_unwind
    {
        if self.next_trigger {
            self.state = Feeder3rdState::StartMove04;
            self.servo_mover.set_target(FEEDER_3RD_POS_04);
            self.next_trigger = false;
        }
        (self.d_out, self.rx_pdo, false)
    }

    fn fsm_state_start_move_04(
        &mut self,
        servo_tx: ServoTxPdo,
        _d_in: u16,
    ) -> (out: (u16, ServoRxPdo, bool))
        requires
            old(self)@.state is StartMove04,
        ensures
            final(self)@ == old(self)@.step(servo_tx, _d_in),
            out == (final(self)@.d_out, final(self)@.rx_pdo, false),
        no_unwind
    {
        if self.servo_mover.update(servo_tx, &mut self.rx_pdo) {
            self.state = Feeder3rdState::StartMove04Clip;
            self.d_out &= !CLIP_01_BIT;  // open the clip
            self.kick_count = CLIP_CYCLES;
        }
        (self.d_out, self.rx_pdo, false)
    }

    fn fsm_state_start_move_04_clip(
        &mut self,
        _servo_tx: ServoTxPdo,
        _d_in: u16,
    ) -> (out: (u16, ServoRxPdo, bool))
        requires
            old(self)@.state is StartMove04Clip,
            old(self)@.wf(),
        ensures
            final(self)@ == old(self)@.step(_servo_tx, _d_in),
            out == (final(self)@.d_out, final(self)@.rx_pdo, false),
        no_unwind
    {
        self.kick_count -= 1;
        if self.kick_count == 0 {
            self.state = Feeder3rdState::StartMove01;
            self.servo_mover.set_target(FEEDER_3RD_POS_01);
            self.kick_count = 0;
        }
        (self.d_out, self.rx_pdo, false)
    }

    fn fsm_state_start_move_01(
        &mut self,
        servo_tx: ServoTxPdo,
        _d_in: u16,
    ) -> (out: (u16, ServoRxPdo, bool))
        requires
            old(self)@.state is StartMove01,
        ensures
            final(self)@ == old(self)@.step(servo_tx, _d_in),
            out == (final(self)@.d_out, final(self)@.rx_pdo, false),
        no_unwind
    {
        if self.servo_mover.update(servo_tx, &mut self.rx_pdo) {
            self.state = Feeder3rdState::Pos1Holding;
        }
        (self.d_out, self.rx_pdo, false)
    }

    fn fsm_state_pos_1_holding(
        &mut self,
        _servo_tx: ServoTxPdo,
        d_in: u16,
    ) -> (out: (u16, ServoRxPdo, bool))
        requires
            old(self)@.state is Pos1Holding,
        ensures
            final(self)@ == old(self)@.step(_servo_tx, d_in),
            out == (final(self)@.d_out, final(self)@.rx_pdo, false),
        no_unwind
    {
        if !self.sensor_gated || d_in & SENSOR_3 != 0 {
            self.state = Feeder3rdState::Pos1ToTakePart;
            self.kick_count = CLIP_CYCLES;
            self.d_out |= CLIP_02_BIT;
        }
        (self.d_out, self.rx_pdo, false)
    }

    fn fsm_state_pos_1_to_take_part(
        &mut self,
        _servo_tx: ServoTxPdo,
        _d_in: u16,
    ) -> (out: (u16, ServoRxPdo, bool))
        requires
            old(self)@.state is Pos1ToTakePart,
            old(self)@.wf(),
        ensures
            final(self)@ == old(self)@.step(_servo_tx, _d_in),
            out == (final(self)@.d_out, final(self)@.rx_pdo, old(self)@.takes_part()),
        no_unwind
    {
        self.kick_count -= 1;
        if self.kick_count == 0 {
            self.servo_mover.set_target(FEEDER_3RD_POS_02);
            self.state = Feeder3rdState::StartMove02;
        }
        (self.d_out, self.rx_pdo, self.kick_count == 0)
    }

    fn fsm_state_start_move_02(
        &mut self,
        servo_tx: ServoTxPdo,
        _d_in: u16,
    ) -> (out: (u16, ServoRxPdo, bool))
        requires
            old(self)@.state is StartMove02,
        ensures
            final(self)@ == old(self)@.step(servo_tx, _d_in),
            out == (final(self)@.d_out, final(self)@.rx_pdo, false),
        no_unwind
    {
        if self.servo_mover.update(servo_tx, &mut self.rx_pdo) {
            self.state = Feeder3rdState::Pos02Release;
            self.kick_count = CLIP_CYCLES;
            self.d_out |= CLIP_01_BIT;
        }
        (self.d_out, self.rx_pdo, false)
    }

    fn fsm_state_02_release(
        &mut self,
        _servo_tx: ServoTxPdo,
        _d_in: u16,
    ) -> (out: (u16, ServoRxPdo, bool))
        requires
            old(self)@.state is Pos02Release,
            old(self)@.wf(),
        ensures
            final(self)@ == old(self)@.step(_servo_tx, _d_in),
            out == (final(self)@.d_out, final(self)@.rx_pdo, false),
        no_unwind
    {
        self.kick_count -= 1;
        if self.kick_count == 0 {
            self.servo_mover.set_target(FEEDER_3RD_POS_01);
            self.state = Feeder3rdState::Pos01Empty;
            self.kick_count = IDLE_CYCLES;
        }
        (self.d_out, self.rx_pdo, false)
    }

    fn fsm_state_pos_01_empty(
        &mut self,
        servo_tx: ServoTxPdo,
        _d_in: u16,
    ) -> (out: (u16, ServoRxPdo, bool))
        requires
            old(self)@.state is Pos01Empty,
        ensures
            final(self)@ == old(self)@.step(servo_tx, _d_in),
            out == (final(self)@.d_out, final(self)@.rx_pdo, false),
        no_unwind
    {
        if self.kick_count > 0 {
            self.kick_count -= 1;
        } else {
            if self.servo_mover.update(servo_tx, &mut self.rx_pdo) {
                self.state = Feeder3rdState::EmptyPendingStep1;
                self.kick_count = CLIP_CYCLES;
            }
        }
        (self.d_out, self.rx_pdo, false)
    }

    fn fsm_state_pos_01_empty_pending_step_1(
        &mut self,
        _servo_tx: ServoTxPdo,
        _d_in: u16,
    ) -> (out: (u16, ServoRxPdo, bool))
        requires
            old(self)@.state is EmptyPendingStep1,
            old(self)@.wf(),
        ensures
            final(self)@ == old(self)@.step(_servo_tx, _d_in),
            out == (final(self)@.d_out, final(self)@.rx_pdo, false),
        no_unwind
    {
        self.kick_count -= 1;
        if self.kick_count == 0 {
            self.state = Feeder3rdState::EmptyPendingStep2;
            self.d_out = 0;
            self.kick_count = IDLE_CYCLES;
        }
        (self.d_out, self.rx_pdo, false)
    }

    fn fsm_state_pos_01_empty_pending_step_2(
        &mut self,
        _servo_tx: ServoTxPdo,
        _d_in: u16,
    ) -> (out: (u16, ServoRxPdo, bool))
        requires
            old(self)@.state is EmptyPendingStep2,
            old(self)@.wf(),
        ensures
            final(self)@ == old(self)@.step(_servo_tx, _d_in),
            out == (final(self)@.d_out, final(self)@.rx_pdo, false),
        no_unwind
    {
        self.kick_count -= 1;
        if self.kick_count == 0 {
            self.state = Feeder3rdState::Init;
        }
        (self.d_out, self.rx_pdo, false)
    }
}

} // verus!
