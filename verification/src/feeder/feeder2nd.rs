//! Second feeder stage: a three-step pneumatic kicker, a breaker and a
//! shuttle servo.
//!
//! The stage waits for a part, kicks it forward in three timed steps, moves
//! the shuttle to its end position and waits there until the third stage has
//! taken the part, then returns the shuttle to its start.

use vstd::prelude::*;
use crate::bits::{lemma_replace_masked_bits, lemma_set_bits_within_mask, within_mask};
use crate::servo::servo::{MoverModel, ServoMover};
use crate::servo::servo_pdo::{ServoRxPdo, ServoTxPdo};

verus! {

pub const FEEDER_SENSOR_BIT_1: u16 = 0x0001;

/// Sensor that sees a product pass.
pub const FEEDER_SENSOR_BIT_2: u16 = 0x0002;

pub const FEEDER_SENSOR_BIT_4: u16 = 0x0008;

pub const FEEDER_SENSOR_BIT_5: u16 = 0x0010;

pub const FEEDER_SENSOR_BIT_6: u16 = 0x0020;

/// Sensor bits that start a kick: 0x0001, 0x0008, 0x0010 and 0x0020.
pub const FEEDER_SENSOR_BIT_MASK: u16 = 0x0039;

/// First kicker.
pub const FEEDER_2ND_OUT_BIT_1: u16 = 0x0001;

/// Second kicker.
pub const FEEDER_2ND_OUT_BIT_2: u16 = 0x0002;

/// Third kicker.
pub const FEEDER_2ND_OUT_BIT_3: u16 = 0x0004;

/// Second and third kicker together.
pub const FEEDER_2ND_OUT_BITS_2_3: u16 = 0x0006;

/// Breaker.
pub const FEEDER_2ND_OUT_BIT_BKR: u16 = 0x4000;

/// Every output bit the second stage may drive.
pub const FEEDER_2ND_OUT_BIT_MASK: u16 = 0x4007;

/// Shuttle position at which a part is taken on.
pub const FEEDER_2ND_POS_START: i32 = 132_544_062;

/// Shuttle position at which the part is handed to the third stage.
pub const FEEDER_2ND_POS_END: i32 = -29_858_310;

/// Shuttle speed in revolutions per minute.
pub const FEEDER_2ND_RPM: u32 = 1500;

/// In the third kick step the breaker takes over when this many cycles are
/// left (automatic mode).
pub const BREAKER_AT_AUTO: u32 = 200;

/// In the third kick step the breaker takes over when this many cycles are
/// left (manual mode).
pub const BREAKER_AT_MANUAL: u32 = 2;

/// The states of the second stage, in the order they are passed through.
#[derive(Clone, Copy, Debug, PartialEq, Eq, Structural)]
pub enum Feeder2ndState {
    Init,
    StartPending,
    StartKick01,
    StartKick02,
    StartKick03,
    MoveToEnd,
    EndPending,
    MoveToStart,
}

/// Cycles between a product passing the sensor and the detection being
/// latched.
pub open spec fn product_passed_cycles(is_manual: bool) -> nat {
    if is_manual {
        1
    } else {
        1000
    }
}

/// Cycles of the first kick step.
pub open spec fn kick_01_cycles(is_manual: bool) -> nat {
    if is_manual {
        1
    } else {
        780
    }
}

/// Cycles of the second kick step.
pub open spec fn kick_02_cycles(is_manual: bool) -> nat {
    if is_manual {
        1
    } else {
        450
    }
}

/// Cycles of the third kick step.
pub open spec fn kick_03_cycles(is_manual: bool) -> nat {
    if is_manual {
        3
    } else {
        850
    }
}

/// True when `d_in` shows a rising edge of the product sensor against the
/// inputs of the cycle before.
pub open spec fn product_edge(last_d_in: u16, d_in: u16) -> bool {
    (last_d_in ^ d_in) & FEEDER_SENSOR_BIT_2 != 0 && d_in & FEEDER_SENSOR_BIT_2 != 0
}

/// True when one of the part sensors that start a kick is set.
pub open spec fn part_present(d_in: u16) -> bool {
    d_in & FEEDER_SENSOR_BIT_MASK > 0
}

/// What the state machine of the second stage stands for.
pub struct Feeder2ndFsmModel {
    pub state: Feeder2ndState,
    /// Cycles left in the current kick step.
    pub kicker_count: nat,
    /// Set when the third stage has taken the part; consumed on leaving
    /// `EndPending`.
    pub next_trigger: bool,
    /// Latched detection of a passed product; consumed on leaving
    /// `StartPending`.
    pub product_passed: bool,
    /// Cycles left until a detection is latched; 0 when none is pending.
    pub product_passed_delay: nat,
    pub servo_mover: MoverModel,
    pub d_out: u16,
    pub rx_pdo: ServoRxPdo,
}

impl Feeder2ndFsmModel {
    /// A state machine that has just been made: breaker on, shuttle at rest,
    /// no detection latched and none pending.
    pub open spec fn initial() -> Feeder2ndFsmModel {
        Feeder2ndFsmModel {
            state: Feeder2ndState::Init,
            kicker_count: 0,
            next_trigger: false,
            product_passed: false,
            product_passed_delay: 0,
            servo_mover: MoverModel::initial(),
            d_out: FEEDER_2ND_OUT_BIT_BKR,
            rx_pdo: ServoRxPdo {
                control_word: 0xF,
                target_position: 0,
                profile_velocity: 0,
                profile_acceleration: 0,
                profile_deceleration: 0,
                mode_of_operation: 1,
            },
        }
    }

    /// True in the three kick steps.
    pub open spec fn kicking(self) -> bool {
        self.state is StartKick01 || self.state is StartKick02 || self.state is StartKick03
    }

    /// A kick step always has at least one cycle left, and the output never
    /// leaves the stage's own bits.
    pub open spec fn wf(self) -> bool {
        &&& self.kicking() ==> self.kicker_count >= 1
        &&& within_mask(self.d_out, FEEDER_2ND_OUT_BIT_MASK)
    }

    /// The state machine after a product edge: the detection countdown
    /// starts anew.
    pub open spec fn with_count_down_started(self, is_manual: bool) -> Feeder2ndFsmModel {
        Feeder2ndFsmModel { product_passed_delay: product_passed_cycles(is_manual), ..self }
    }

    /// The state machine after one tick of the detection countdown: a
    /// pending countdown loses one cycle, and latches the detection when it
    /// runs out.
    pub open spec fn with_count_down_ticked(self) -> Feeder2ndFsmModel {
        if self.product_passed_delay > 0 {
            Feeder2ndFsmModel {
                product_passed_delay: (self.product_passed_delay - 1) as nat,
                product_passed: self.product_passed || self.product_passed_delay == 1,
                ..self
            }
        } else {
            self
        }
    }

    /// The shuttle mover as it is driven in this cycle: in `Init` it is
    /// first asked for the start position at the shuttle speed.
    pub open spec fn driven_mover(self) -> MoverModel {
        if self.state is Init {
            self.servo_mover.with_target(FEEDER_2ND_POS_START).with_rpm(FEEDER_2ND_RPM)
        } else {
            self.servo_mover
        }
    }

    /// True in the states whose cycle drives the shuttle mover.
    pub open spec fn moving(self) -> bool {
        self.state is Init || self.state is MoveToEnd || self.state is MoveToStart
    }

    /// The command image the stage holds after a cycle with feedback
    /// `servo_tx`: the mover's next command in the states that drive the
    /// shuttle, the image as it was in every other state.
    pub open spec fn command(self, servo_tx: ServoTxPdo) -> ServoRxPdo {
        if self.moving() {
            self.driven_mover().command(servo_tx, self.rx_pdo)
        } else {
            self.rx_pdo
        }
    }

    /// Whether this cycle finds the shuttle at the end position: the edge
    /// that tells the third stage to take the part.
    pub open spec fn reaches_end(self, servo_tx: ServoTxPdo) -> bool {
        self.state is MoveToEnd && self.servo_mover.completes(servo_tx)
    }

    /// The state machine after the handler of its state has run on the
    /// feedback `servo_tx` and the digital inputs `d_in`.
    pub open spec fn step(self, servo_tx: ServoTxPdo, d_in: u16, is_manual: bool)
        -> Feeder2ndFsmModel {
        match self.state {
            Feeder2ndState::Init => {
                let mover = self.driven_mover();
                Feeder2ndFsmModel {
                    d_out: self.d_out | FEEDER_2ND_OUT_BIT_BKR,
                    servo_mover: mover.step(servo_tx),
                    rx_pdo: mover.command(servo_tx, self.rx_pdo),
                    state: if mover.completes(servo_tx) {
                        Feeder2ndState::StartPending
                    } else {
                        Feeder2ndState::Init
                    },
                    ..self
                }
            },
            Feeder2ndState::StartPending => if part_present(d_in) || self.product_passed {
                Feeder2ndFsmModel {
                    state: Feeder2ndState::StartKick01,
                    d_out: FEEDER_2ND_OUT_BIT_1,
                    kicker_count: kick_01_cycles(is_manual),
                    product_passed: false,
                    ..self
                }
            } else {
                self
            },
            Feeder2ndState::StartKick01 => if self.kicker_count == 1 {
                Feeder2ndFsmModel {
                    state: Feeder2ndState::StartKick02,
                    d_out: FEEDER_2ND_OUT_BIT_2,
                    kicker_count: kick_02_cycles(is_manual),
                    ..self
                }
            } else {
                Feeder2ndFsmModel { kicker_count: (self.kicker_count - 1) as nat, ..self }
            },
            Feeder2ndState::StartKick02 => if self.kicker_count == 1 {
                Feeder2ndFsmModel {
                    state: Feeder2ndState::StartKick03,
                    d_out: FEEDER_2ND_OUT_BITS_2_3,
                    kicker_count: kick_03_cycles(is_manual),
                    ..self
                }
            } else {
                Feeder2ndFsmModel { kicker_count: (self.kicker_count - 1) as nat, ..self }
            },
            Feeder2ndState::StartKick03 => {
                let left = (self.kicker_count - 1) as nat;
                let d_out = if left == BREAKER_AT_AUTO || left == BREAKER_AT_MANUAL {
                    FEEDER_2ND_OUT_BIT_BKR
                } else {
                    self.d_out
                };
                if left == 0 {
                    Feeder2ndFsmModel {
                        state: Feeder2ndState::MoveToEnd,
                        servo_mover: self.servo_mover.with_target(FEEDER_2ND_POS_END),
                        kicker_count: 0,
                        d_out,
                        ..self
                    }
                } else {
                    Feeder2ndFsmModel { kicker_count: left, d_out, ..self }
                }
            },
            Feeder2ndState::MoveToEnd => Feeder2ndFsmModel {
                servo_mover: self.servo_mover.step(servo_tx),
                rx_pdo: self.servo_mover.command(servo_tx, self.rx_pdo),
                state: if self.servo_mover.completes(servo_tx) {
                    Feeder2ndState::EndPending
                } else {
                    Feeder2ndState::MoveToEnd
                },
                ..self
            },
            Feeder2ndState::EndPending => if self.next_trigger {
                Feeder2ndFsmModel {
                    state: Feeder2ndState::MoveToStart,
                    servo_mover: self.servo_mover.with_target(FEEDER_2ND_POS_START),
                    d_out: FEEDER_2ND_OUT_BIT_BKR,
                    next_trigger: false,
                    ..self
                }
            } else {
                self
            },
            Feeder2ndState::MoveToStart => Feeder2ndFsmModel {
                servo_mover: self.servo_mover.step(servo_tx),
                rx_pdo: self.servo_mover.command(servo_tx, self.rx_pdo),
                state: if self.servo_mover.completes(servo_tx) {
                    Feeder2ndState::StartPending
                } else {
                    Feeder2ndState::MoveToStart
                },
                ..self
            },
        }
    }
}

/// What a [`Feeder2nd`] stands for.
pub struct Feeder2ndModel {
    /// Digital inputs of the cycle before.
    pub last_d_in: u16,
    pub fsm: Feeder2ndFsmModel,
}

impl Feeder2ndModel {
    /// A second stage that has just been made.
    pub open spec fn initial() -> Feeder2ndModel {
        Feeder2ndModel { last_d_in: 0, fsm: Feeder2ndFsmModel::initial() }
    }

    /// The state machine is well formed.
    pub open spec fn wf(self) -> bool {
        self.fsm.wf()
    }

    /// The state machine after the product detection of this cycle and
    /// before its handler runs.  A rising edge of the product sensor starts
    /// the countdown; every other cycle ticks it.  So a countdown of `n`
    /// cycles latches the detection in the `n`-th cycle after the edge.
    pub open spec fn detected(self, d_in: u16, is_manual: bool) -> Feeder2ndFsmModel {
        if product_edge(self.last_d_in, d_in) {
            self.fsm.with_count_down_started(is_manual)
        } else {
            self.fsm.with_count_down_ticked()
        }
    }

    /// The stage after one cycle with feedback `servo_tx` and digital inputs
    /// `d_in`.
    pub open spec fn step(self, servo_tx: ServoTxPdo, d_in: u16, is_manual: bool)
        -> Feeder2ndModel {
        Feeder2ndModel {
            last_d_in: d_in,
            fsm: self.detected(d_in, is_manual).step(servo_tx, d_in, is_manual),
        }
    }

    /// Whether this cycle finds the shuttle at the end position.
    pub open spec fn reaches_end(self, servo_tx: ServoTxPdo) -> bool {
        self.fsm.reaches_end(servo_tx)
    }

    /// The stage after the third stage has reported the part taken.
    pub open spec fn triggered(self) -> Feeder2ndModel {
        Feeder2ndModel { fsm: Feeder2ndFsmModel { next_trigger: true, ..self.fsm }, ..self }
    }
}

/// The handler of a state keeps the state machine well formed.
pub proof fn lemma_feeder2nd_fsm_step_wf(
    m: Feeder2ndFsmModel,
    servo_tx: ServoTxPdo,
    d_in: u16,
    is_manual: bool,
)
    requires
        m.wf(),
    ensures
        m.step(servo_tx, d_in, is_manual).wf(),
{
    lemma_feeder2nd_bits_within_mask();
    lemma_set_bits_within_mask(m.d_out, FEEDER_2ND_OUT_BIT_BKR, FEEDER_2ND_OUT_BIT_MASK);
}

/// One cycle keeps the stage well formed.
pub proof fn lemma_feeder2nd_step_wf(
    m: Feeder2ndModel,
    servo_tx: ServoTxPdo,
    d_in: u16,
    is_manual: bool,
)
    requires
        m.wf(),
    ensures
        m.step(servo_tx, d_in, is_manual).wf(),
        m.triggered().wf(),
{
    lemma_feeder2nd_fsm_step_wf(m.detected(d_in, is_manual), servo_tx, d_in, is_manual);
}

/// Each output pattern of the second stage lies inside its mask, and each
/// mask is the union of its bits.
pub proof fn lemma_feeder2nd_bits_within_mask()
    ensures
        within_mask(FEEDER_2ND_OUT_BIT_1, FEEDER_2ND_OUT_BIT_MASK),
        within_mask(FEEDER_2ND_OUT_BIT_2, FEEDER_2ND_OUT_BIT_MASK),
        within_mask(FEEDER_2ND_OUT_BITS_2_3, FEEDER_2ND_OUT_BIT_MASK),
        within_mask(FEEDER_2ND_OUT_BIT_BKR, FEEDER_2ND_OUT_BIT_MASK),
        FEEDER_2ND_OUT_BIT_2 | FEEDER_2ND_OUT_BIT_3 == FEEDER_2ND_OUT_BITS_2_3,
        FEEDER_2ND_OUT_BIT_1 | FEEDER_2ND_OUT_BIT_2 | FEEDER_2ND_OUT_BIT_3 | FEEDER_2ND_OUT_BIT_BKR
            == FEEDER_2ND_OUT_BIT_MASK,
        FEEDER_SENSOR_BIT_1 | FEEDER_SENSOR_BIT_4 | FEEDER_SENSOR_BIT_5 | FEEDER_SENSOR_BIT_6
            == FEEDER_SENSOR_BIT_MASK,
{
    assert(0x0001u16 & !0x4007u16 == 0 && 0x0002u16 & !0x4007u16 == 0 && 0x0006u16 & !0x4007u16
        == 0 && 0x4000u16 & !0x4007u16 == 0 && 0x0002u16 | 0x0004u16 == 0x0006u16 && 0x0001u16
        | 0x0002u16 | 0x0004u16 | 0x4000u16 == 0x4007u16 && 0x0001u16 | 0x0008u16 | 0x0010u16
        | 0x0020u16 == 0x0039u16) by (bit_vector);
}

/// The command image after a cycle is determined by the state the cycle
/// begins in and by the shuttle's feedback, whatever the digital inputs and
/// the mode are.
pub proof fn lemma_feeder2nd_command(
    m: Feeder2ndModel,
    servo_tx: ServoTxPdo,
    d_in: u16,
    is_manual: bool,
)
    ensures
        m.step(servo_tx, d_in, is_manual).fsm.rx_pdo == m.fsm.command(servo_tx),
{
}

/// What one cycle brings to the second stage.
pub struct Feeder2ndInput {
    pub servo_tx: ServoTxPdo,
    pub d_in: u16,
    pub is_manual: bool,
}

impl Feeder2ndModel {
    /// The stage after the cycles `inputs`, in order, with no word from the
    /// third stage in between.
    pub open spec fn run(self, inputs: Seq<Feeder2ndInput>) -> Feeder2ndModel
        decreases inputs.len(),
    {
        if inputs.len() == 0 {
            self
        } else {
            let last = inputs.last();
            self.run(inputs.drop_last()).step(last.servo_tx, last.d_in, last.is_manual)
        }
    }
}

/// While the stage waits in `EndPending` and the third stage has not
/// reported the part taken, no cycle changes its state, its output word or
/// its command image, whatever the inputs are.
pub proof fn lemma_end_pending_holds_output(m: Feeder2ndModel, inputs: Seq<Feeder2ndInput>)
    requires
        m.fsm.state is EndPending,
        !m.fsm.next_trigger,
    ensures
        m.run(inputs).fsm.state is EndPending,
        !m.run(inputs).fsm.next_trigger,
        m.run(inputs).fsm.d_out == m.fsm.d_out,
        m.run(inputs).fsm.rx_pdo == m.fsm.rx_pdo,
        m.run(inputs).fsm.servo_mover == m.fsm.servo_mover,
    decreases inputs.len(),
{
    if inputs.len() > 0 {
        lemma_end_pending_holds_output(m, inputs.drop_last());
    }
}

/// The stage leaves `EndPending` in the very cycle after the third stage has
/// reported the part taken: the shuttle is sent back to the start, the
/// breaker is engaged and the report is consumed.
pub proof fn lemma_end_pending_leaves_on_trigger(
    m: Feeder2ndModel,
    servo_tx: ServoTxPdo,
    d_in: u16,
    is_manual: bool,
)
    requires
        m.fsm.state is EndPending,
    ensures
        m.triggered().step(servo_tx, d_in, is_manual).fsm.state is MoveToStart,
        m.triggered().step(servo_tx, d_in, is_manual).fsm.d_out == FEEDER_2ND_OUT_BIT_BKR,
        !m.triggered().step(servo_tx, d_in, is_manual).fsm.next_trigger,
{
}

/// The digital inputs of the cycle before cycle `i` of `inputs`, where
/// `last_d_in` came before the first.
pub open spec fn d_in_before(last_d_in: u16, inputs: Seq<Feeder2ndInput>, i: int) -> u16 {
    if i == 0 {
        last_d_in
    } else {
        inputs[i - 1].d_in
    }
}

/// True when no cycle of `inputs` shows a rising edge of the product sensor.
pub open spec fn edge_free(last_d_in: u16, inputs: Seq<Feeder2ndInput>) -> bool {
    forall|i: int|
        0 <= i < inputs.len() ==> !product_edge(
            d_in_before(last_d_in, inputs, i),
            (#[trigger] inputs[i]).d_in,
        )
}

/// A sequence of cycles without a product edge is one without an edge up to
/// its last cycle, followed by a cycle that shows none.
pub proof fn lemma_edge_free_unfolds(last_d_in: u16, inputs: Seq<Feeder2ndInput>)
    requires
        edge_free(last_d_in, inputs),
        inputs.len() > 0,
    ensures
        edge_free(last_d_in, inputs.drop_last()),
        !product_edge(
            d_in_before(last_d_in, inputs, inputs.len() - 1),
            inputs.last().d_in,
        ),
{
    let before = inputs.drop_last();
    assert forall|i: int| 0 <= i < before.len() implies !product_edge(
        d_in_before(last_d_in, before, i),
        (#[trigger] before[i]).d_in,
    ) by {
        assert(before[i] == inputs[i]);
        assert(d_in_before(last_d_in, before, i) == d_in_before(last_d_in, inputs, i));
    }
    let i = inputs.len() - 1;
    assert(!product_edge(d_in_before(last_d_in, inputs, i), inputs[i].d_in));
}

/// Without a product edge nothing is ever latched: a stage with no detection
/// latched and none pending stays so through every cycle, whatever else the
/// cycles bring.  A new stage is such a stage.
pub proof fn lemma_no_detection_without_edge(m: Feeder2ndModel, inputs: Seq<Feeder2ndInput>)
    requires
        !m.fsm.product_passed,
        m.fsm.product_passed_delay == 0,
        edge_free(m.last_d_in, inputs),
    ensures
        !m.run(inputs).fsm.product_passed,
        m.run(inputs).fsm.product_passed_delay == 0,
        m.run(inputs).last_d_in == d_in_before(m.last_d_in, inputs, inputs.len() as int),
    decreases inputs.len(),
{
    if inputs.len() > 0 {
        lemma_edge_free_unfolds(m.last_d_in, inputs);
        lemma_no_detection_without_edge(m, inputs.drop_last());
    }
}

/// With no part at the sensors and no product edge, a stage that waits in
/// `StartPending` with no detection latched and none pending goes on
/// waiting: no cycle changes its state, its output word or its command
/// image, and it never kicks.
pub proof fn lemma_start_pending_waits_for_a_part(
    m: Feeder2ndModel,
    inputs: Seq<Feeder2ndInput>,
)
    requires
        m.fsm.state is StartPending,
        !m.fsm.product_passed,
        m.fsm.product_passed_delay == 0,
        edge_free(m.last_d_in, inputs),
        forall|i: int| 0 <= i < inputs.len() ==> !part_present((#[trigger] inputs[i]).d_in),
    ensures
        m.run(inputs).fsm == m.fsm,
    decreases inputs.len(),
{
    if inputs.len() > 0 {
        lemma_edge_free_unfolds(m.last_d_in, inputs);
        lemma_no_detection_without_edge(m, inputs.drop_last());
        lemma_start_pending_waits_for_a_part(m, inputs.drop_last());
        assert(!part_present(inputs[inputs.len() - 1].d_in));
    }
}

/// A rising edge of the product sensor starts the detection countdown with
/// the cycles of the mode, and latches nothing in its own cycle.
pub proof fn lemma_product_edge_starts_count_down(
    m: Feeder2ndModel,
    servo_tx: ServoTxPdo,
    d_in: u16,
    is_manual: bool,
)
    requires
        product_edge(m.last_d_in, d_in),
    ensures
        m.step(servo_tx, d_in, is_manual).fsm.product_passed_delay == product_passed_cycles(
            is_manual,
        ),
        m.step(servo_tx, d_in, is_manual).fsm.product_passed ==> m.fsm.product_passed,
{
}

/// With no further edge, a detection countdown with `n` cycles left has one
/// cycle less after each of fewer than `n` cycles, and latches nothing yet.
pub proof fn lemma_detection_counts_down(m: Feeder2ndModel, inputs: Seq<Feeder2ndInput>)
    requires
        edge_free(m.last_d_in, inputs),
        inputs.len() < m.fsm.product_passed_delay,
    ensures
        m.run(inputs).fsm.product_passed_delay == m.fsm.product_passed_delay - inputs.len(),
        m.run(inputs).fsm.product_passed ==> m.fsm.product_passed,
        m.run(inputs).last_d_in == d_in_before(m.last_d_in, inputs, inputs.len() as int),
    decreases inputs.len(),
{
    if inputs.len() > 0 {
        lemma_edge_free_unfolds(m.last_d_in, inputs);
        lemma_detection_counts_down(m, inputs.drop_last());
    }
}

/// With no further edge, a detection countdown with `n` cycles left latches
/// the detection in its `n`-th cycle.  The latch is still set after that
/// cycle, unless the stage stood in `StartPending` and started the kick on
/// it at once.
pub proof fn lemma_detection_latches(m: Feeder2ndModel, inputs: Seq<Feeder2ndInput>)
    requires
        edge_free(m.last_d_in, inputs),
        inputs.len() == m.fsm.product_passed_delay,
        inputs.len() >= 1,
    ensures
        m.run(inputs.drop_last()).detected(
            inputs.last().d_in,
            inputs.last().is_manual,
        ).product_passed,
        m.run(inputs).fsm.product_passed_delay == 0,
        m.run(inputs).fsm.product_passed || (m.run(inputs.drop_last()).fsm.state is StartPending
            && m.run(inputs).fsm.state is StartKick01),
{
    lemma_edge_free_unfolds(m.last_d_in, inputs);
    lemma_detection_counts_down(m, inputs.drop_last());
}

/// In `StartPending` a part sensor or a latched detection starts the first
/// kick step: the first kicker is set alone, the step is loaded with the
/// cycles of the mode, and the detection is consumed.
pub proof fn lemma_part_starts_the_kick(
    m: Feeder2ndModel,
    servo_tx: ServoTxPdo,
    d_in: u16,
    is_manual: bool,
)
    requires
        m.fsm.state is StartPending,
    ensures
        ({
            let after = m.step(servo_tx, d_in, is_manual).fsm;
            if part_present(d_in) || m.detected(d_in, is_manual).product_passed {
                &&& after.state is StartKick01
                &&& after.kicker_count == kick_01_cycles(is_manual)
                &&& after.d_out == FEEDER_2ND_OUT_BIT_1
                &&& !after.product_passed
            } else {
                &&& after.state is StartPending
                &&& after.d_out == m.fsm.d_out
            }
        }),
{
}

/// Cycles of the three kick steps together.
pub open spec fn kick_sequence_cycles(is_manual: bool) -> nat {
    kick_01_cycles(is_manual) + kick_02_cycles(is_manual) + kick_03_cycles(is_manual)
}

/// Running one sequence of cycles and then another is running the two in a
/// row.
pub proof fn lemma_feeder2nd_run_concat(
    m: Feeder2ndModel,
    first: Seq<Feeder2ndInput>,
    second: Seq<Feeder2ndInput>,
)
    ensures
        m.run(first + second) == m.run(first).run(second),
    decreases second.len(),
{
    if second.len() == 0 {
        assert(first + second =~= first);
    } else {
        lemma_feeder2nd_run_concat(m, first, second.drop_last());
        assert((first + second).drop_last() =~= first + second.drop_last());
    }
}

/// A kick step with `n` cycles left is still running after fewer than `n`
/// cycles, with one cycle less for each.  The shuttle rests meanwhile, and
/// the first two steps hold their output.
pub proof fn lemma_kick_step_counts_down(m: Feeder2ndModel, inputs: Seq<Feeder2ndInput>)
    requires
        m.fsm.kicking(),
        inputs.len() < m.fsm.kicker_count,
    ensures
        m.run(inputs).fsm.state == m.fsm.state,
        m.run(inputs).fsm.kicker_count == m.fsm.kicker_count - inputs.len(),
        m.run(inputs).fsm.servo_mover == m.fsm.servo_mover,
        !(m.fsm.state is StartKick03) ==> m.run(inputs).fsm.d_out == m.fsm.d_out,
    decreases inputs.len(),
{
    if inputs.len() > 0 {
        lemma_kick_step_counts_down(m, inputs.drop_last());
    }
}

/// A kick step with `n` cycles left ends in its `n`-th cycle: the first step
/// hands over to the second and the second to the third, each loading the
/// next step's cycles for the mode of that cycle, and the third sends the
/// shuttle to the end position.
pub proof fn lemma_kick_step_ends(m: Feeder2ndModel, inputs: Seq<Feeder2ndInput>)
    requires
        m.fsm.kicking(),
        inputs.len() == m.fsm.kicker_count,
        m.fsm.kicker_count >= 1,
    ensures
        m.fsm.state is StartKick01 ==> m.run(inputs).fsm.state is StartKick02 && m.run(
            inputs,
        ).fsm.kicker_count == kick_02_cycles(inputs.last().is_manual) && m.run(inputs).fsm.d_out
            == FEEDER_2ND_OUT_BIT_2,
        m.fsm.state is StartKick02 ==> m.run(inputs).fsm.state is StartKick03 && m.run(
            inputs,
        ).fsm.kicker_count == kick_03_cycles(inputs.last().is_manual) && m.run(inputs).fsm.d_out
            == FEEDER_2ND_OUT_BITS_2_3,
        m.fsm.state is StartKick03 ==> m.run(inputs).fsm.state is MoveToEnd && m.run(
            inputs,
        ).fsm.servo_mover == m.fsm.servo_mover.with_target(FEEDER_2ND_POS_END),
{
    lemma_kick_step_counts_down(m, inputs.drop_last());
}

/// From the first cycle of the first kick step, the three steps take exactly
/// their cycles together, 780 + 450 + 850 in automatic mode and 1 + 1 + 3 in
/// manual mode, whatever the feedback and the digital inputs are: the stage
/// kicks in every cycle before the last of them, and the last sends the
/// shuttle to the end position.
pub proof fn lemma_kick_sequence_length(
    m: Feeder2ndModel,
    inputs: Seq<Feeder2ndInput>,
    is_manual: bool,
)
    requires
        m.fsm.state is StartKick01,
        m.fsm.kicker_count == kick_01_cycles(is_manual),
        inputs.len() == kick_sequence_cycles(is_manual),
        forall|i: int| 0 <= i < inputs.len() ==> (#[trigger] inputs[i]).is_manual == is_manual,
    ensures
        m.run(inputs).fsm.state is MoveToEnd,
        m.run(inputs).fsm.servo_mover == m.fsm.servo_mover.with_target(FEEDER_2ND_POS_END),
        forall|k: int| 0 <= k < inputs.len() ==> (#[trigger] m.run(inputs.take(k))).fsm.kicking(),
{
    let n1 = kick_01_cycles(is_manual) as int;
    let n2 = kick_02_cycles(is_manual) as int;
    let n3 = kick_03_cycles(is_manual) as int;
    let first = inputs.take(n1);
    let second = inputs.subrange(n1, n1 + n2);
    let third = inputs.subrange(n1 + n2, n1 + n2 + n3);
    let m1 = m.run(first);
    let m2 = m1.run(second);
    lemma_kick_step_ends(m, first);
    lemma_kick_step_ends(m1, second);
    lemma_kick_step_ends(m2, third);
    lemma_feeder2nd_run_concat(m, first, second);
    lemma_feeder2nd_run_concat(m, first + second, third);
    assert(first + second + third =~= inputs);
    assert(m.run(inputs).fsm.servo_mover == m.fsm.servo_mover.with_target(FEEDER_2ND_POS_END))
        by {
        lemma_kick_step_counts_down(m, first.drop_last());
        lemma_kick_step_counts_down(m1, second.drop_last());
    }
    assert forall|k: int| 0 <= k < inputs.len() implies (#[trigger] m.run(
        inputs.take(k),
    )).fsm.kicking() by {
        if k < n1 {
            lemma_kick_step_counts_down(m, inputs.take(k));
        } else if k < n1 + n2 {
            let rest = inputs.subrange(n1, k);
            assert(first + rest =~= inputs.take(k));
            lemma_feeder2nd_run_concat(m, first, rest);
            lemma_kick_step_counts_down(m1, rest);
        } else {
            let rest = inputs.subrange(n1 + n2, k);
            assert(first + second + rest =~= inputs.take(k));
            lemma_feeder2nd_run_concat(m, first + second, rest);
            lemma_kick_step_counts_down(m2, rest);
        }
    }
}

/// The second feeder stage.
pub struct Feeder2nd {
    last_d_in: u16,
    fsm: Feeder2ndFsm,
}

/// The state machine of the second stage.
struct Feeder2ndFsm {
    kicker_count: u32,
    next_trigger: bool,
    product_passed: bool,
    product_passed_delay: u32,
    state: Feeder2ndState,
    servo_mover: ServoMover,
    d_out: u16,
    rx_pdo: ServoRxPdo,
}

impl View for Feeder2ndFsm {
    type V = Feeder2ndFsmModel;

    closed spec fn view(&self) -> Feeder2ndFsmModel {
        Feeder2ndFsmModel {
            state: self.state,
            kicker_count: self.kicker_count as nat,
            next_trigger: self.next_trigger,
            product_passed: self.product_passed,
            product_passed_delay: self.product_passed_delay as nat,
            servo_mover: self.servo_mover@,
            d_out: self.d_out,
            rx_pdo: self.rx_pdo,
        }
    }
}

impl View for Feeder2nd {
    type V = Feeder2ndModel;

    closed spec fn view(&self) -> Feeder2ndModel {
        Feeder2ndModel { last_d_in: self.last_d_in, fsm: self.fsm@ }
    }
}

impl Feeder2nd {
    #[verifier::type_invariant]
    spec fn inv(self) -> bool {
        self.fsm@.wf()
    }

    pub fn new() -> (f: Self)
        ensures
            f@ == Feeder2ndModel::initial(),
            f@.wf(),
        no_unwind
    {
        Feeder2nd { last_d_in: 0, fsm: Feeder2ndFsm::new() }
    }

    /// Runs one cycle with the shuttle feedback `servo_tx` and the digital
    /// inputs `d_in`.  Returns the stage's output word, the command image for
    /// the shuttle drive, and whether this cycle found the shuttle at the end
    /// position.
    pub fn update(
        &mut self,
        servo_tx: ServoTxPdo,
        d_in: u16,
        is_manual: bool,
    ) -> (out: (u16, ServoRxPdo, bool))
        ensures
            old(self)@.wf(),
            final(self)@.wf(),
            final(self)@ == old(self)@.step(servo_tx, d_in, is_manual),
            out.0 == final(self)@.fsm.d_out,
            out.1 == final(self)@.fsm.rx_pdo,
            out.2 == old(self)@.reaches_end(servo_tx),
            within_mask(out.0, FEEDER_2ND_OUT_BIT_MASK),
        no_unwind
    {
        proof {
            use_type_invariant(&*self);
            lemma_feeder2nd_step_wf(self@, servo_tx, d_in, is_manual);
        }
        if ((self.last_d_in ^ d_in) & FEEDER_SENSOR_BIT_2 != 0) && (d_in & FEEDER_SENSOR_BIT_2
            != 0) {
            self.fsm.start_product_passed_count_down(is_manual);
        } else if self.fsm.count_down() {
            self.fsm.toggle_product_passed();
        }
        self.last_d_in = d_in;
        self.fsm.update(servo_tx, d_in, is_manual)
    }

    /// Tells the stage that the third stage has taken the part.
    pub fn trigger_next(&mut self)
        ensures
            final(self)@ == old(self)@.triggered(),
            final(self)@.wf(),
        no_unwind
    {
        proof {
            use_type_invariant(&*self);
        }
        self.fsm.next_trigger = true;
    }

    /// The current state.
    pub fn state(&self) -> (s: Feeder2ndState)
        ensures
            s == self@.fsm.state,
        no_unwind
    {
        self.fsm.state
    }

    /// The output word the stage holds.
    pub fn d_out(&self) -> (d: u16)
        ensures
            d == self@.fsm.d_out,
            within_mask(d, FEEDER_2ND_OUT_BIT_MASK),
        no_unwind
    {
        proof {
            use_type_invariant(self);
        }
        self.fsm.d_out
    }

    /// The mover of the shuttle drive.
    pub fn servo_mover(&self) -> (mover: &ServoMover)
        ensures
            mover@ == self@.fsm.servo_mover,
        no_unwind
    {
        &self.fsm.servo_mover
    }

    /// Whether the next cycle drives the shuttle mover: it does in `Init`,
    /// `MoveToEnd` and `MoveToStart`.
    pub fn drives_mover(&self) -> (driven: bool)
        ensures
            driven == self@.fsm.moving(),
        no_unwind
    {
        match self.fsm.state {
            Feeder2ndState::Init | Feeder2ndState::MoveToEnd | Feeder2ndState::MoveToStart => true,
            _ => false,
        }
    }

    /// Whether a passed product is latched.
    pub fn product_passed(&self) -> (p: bool)
        ensures
            p == self@.fsm.product_passed,
        no_unwind
    {
        self.fsm.product_passed
    }

    /// Cycles left until a detection is latched; 0 when none is pending.
    pub fn product_passed_delay(&self) -> (n: u32)
        ensures
            n == self@.fsm.product_passed_delay,
        no_unwind
    {
        self.fsm.product_passed_delay
    }

    /// Cycles left in the current kick step.
    pub fn kicker_count(&self) -> (n: u32)
        ensures
            n == self@.fsm.kicker_count,
        no_unwind
    {
        self.fsm.kicker_count
    }
}

impl Default for Feeder2nd {
    fn default() -> (f: Self)
        ensures
            f@ == Feeder2ndModel::initial(),
            f@.wf(),
    {
        Self::new()
    }
}

impl Feeder2ndFsm {
    fn new() -> (f: Self)
        ensures
            f@ == Feeder2ndFsmModel::initial(),
            f@.wf(),
        no_unwind
    {
        proof {
            lemma_feeder2nd_bits_within_mask();
        }
        Feeder2ndFsm {
            kicker_count: 0,
            next_trigger: false,
            product_passed: false,
            product_passed_delay: 0,
            state: Feeder2ndState::Init,
            servo_mover: ServoMover::new(),
            d_out: FEEDER_2ND_OUT_BIT_BKR,  // the breaker starts engaged
            rx_pdo: ServoRxPdo {
                control_word: 0xF,
                target_position: 0,
                profile_velocity: 0,
                profile_acceleration: 0,
                profile_deceleration: 0,
                mode_of_operation: 1,
            },
        }
    }

    fn start_product_passed_count_down(&mut self, is_manual: bool)
        ensures
            final(self)@ == old(self)@.with_count_down_started(is_manual),
        no_unwind
    {
        self.product_passed_delay = if is_manual {
            1
        } else {
            1000
        };
    }

    fn toggle_product_passed(&mut self)
        ensures
            final(self)@ == (Feeder2ndFsmModel { product_passed: true, ..old(self)@ }),
        no_unwind
    {
        self.product_passed = true;
    }

    /// Ticks a pending detection countdown and returns whether it ran out in
    /// this cycle.
    fn count_down(&mut self) -> (expired: bool)
        ensures
            expired == (old(self)@.product_passed_delay == 1),
            final(self)@ == (Feeder2ndFsmModel {
                product_passed_delay: if old(self)@.product_passed_delay > 0 {
                    (old(self)@.product_passed_delay - 1) as nat
                } else {
                    0
                },
                ..old(self)@
            }),
        no_unwind
    {
        if self.product_passed_delay > 0 {
            self.product_passed_delay -= 1;
            return self.product_passed_delay == 0;
        }
        false
    }

    /// Runs the handler of the current state.
    fn update(
        &mut self,
        servo_tx: ServoTxPdo,
        d_in: u16,
        is_manual: bool,
    ) -> (out: (u16, ServoRxPdo, bool))
        requires
            old(self)@.wf(),
        ensures
            final(self)@ == old(self)@.step(servo_tx, d_in, is_manual),
            out.0 == final(self)@.d_out,
            out.1 == final(self)@.rx_pdo,
            out.2 == old(self)@.reaches_end(servo_tx),
        no_unwind
    {
        match self.state {
            Feeder2ndState::Init => self.fsm_state_init(servo_tx, d_in, is_manual),
            Feeder2ndState::StartPending => self.fsm_state_start_pending(
                servo_tx,
                d_in,
                is_manual,
            ),
            Feeder2ndState::StartKick01 => self.fsm_state_start_kick_01(
                servo_tx,
                d_in,
                is_manual,
            ),
            Feeder2ndState::StartKick02 => self.fsm_state_start_kick_02(
                servo_tx,
                d_in,
                is_manual,
            ),
            Feeder2ndState::StartKick03 => self.fsm_state_start_kick_03(
                servo_tx,
                d_in,
                is_manual,
            ),
            Feeder2ndState::MoveToEnd => self.fsm_state_move_to_end(servo_tx, d_in, is_manual),
            Feeder2ndState::EndPending => self.fsm_state_end_pending(servo_tx, d_in, is_manual),
            Feeder2ndState::MoveToStart => self.fsm_state_move_to_start(
                servo_tx,
                d_in,
                is_manual,
            ),
        }
    }

    fn fsm_state_init(
        &mut self,
        servo_tx: ServoTxPdo,
        _d_in: u16,
        _is_manual: bool,
    ) -> (out: (u16, ServoRxPdo, bool))
        requires
            old(self)@.state is Init,
        ensures
            final(self)@ == old(self)@.step(servo_tx, _d_in, _is_manual),
            out == (final(self)@.d_out, final(self)@.rx_pdo, false),
        no_unwind
    {
        self.d_out |= FEEDER_2ND_OUT_BIT_BKR;
        self.servo_mover.set_target(FEEDER_2ND_POS_START);
        self.servo_mover.set_profile_velocity(FEEDER_2ND_RPM);
        if self.servo_mover.update(servo_tx, &mut self.rx_pdo) {
            self.state = Feeder2ndState::StartPending;
        }
        (self.d_out, self.rx_pdo, false)
    }

    fn fsm_state_start_pending(
        &mut self,
        _servo_tx: ServoTxPdo,
        d_in: u16,
        is_manual: bool,
    ) -> (out: (u16, ServoRxPdo, bool))
        requires
            old(self)@.state is StartPending,
            old(self)@.wf(),
        ensures
            final(self)@ == old(self)@.step(_servo_tx, d_in, is_manual),
            out == (final(self)@.d_out, final(self)@.rx_pdo, false),
        no_unwind
    {
        if (d_in & FEEDER_SENSOR_BIT_MASK) > 0 || self.product_passed {
            proof {
                lemma_replace_masked_bits(
                    self.d_out,
                    FEEDER_2ND_OUT_BIT_1,
                    FEEDER_2ND_OUT_BIT_MASK,
                );
            }
            self.state = Feeder2ndState::StartKick01;
            self.d_out = (self.d_out & !FEEDER_2ND_OUT_BIT_MASK) | FEEDER_2ND_OUT_BIT_1;
            self.kicker_count = if is_manual {
                1
            } else {
                780
            };
            self.product_passed = false;
        }
        (self.d_out, self.rx_pdo, false)
    }

    fn fsm_state_start_kick_01(
        &mut self,
        _servo_tx: ServoTxPdo,
        _d_in: u16,
        is_manual: bool,
    ) -> (out: (u16, ServoRxPdo, bool))
        requires
            old(self)@.state is StartKick01,
            old(self)@.wf(),
        ensures
            final(self)@ == old(self)@.step(_servo_tx, _d_in, is_manual),
            out == (final(self)@.d_out, final(self)@.rx_pdo, false),
        no_unwind
    {
        self.kicker_count -= 1;
        if self.kicker_count == 0 {
            proof {
                lemma_replace_masked_bits(
                    self.d_out,
                    FEEDER_2ND_OUT_BIT_2,
                    FEEDER_2ND_OUT_BIT_MASK,
                );
            }
            self.state = Feeder2ndState::StartKick02;
            self.d_out = (self.d_out & !FEEDER_2ND_OUT_BIT_MASK) | FEEDER_2ND_OUT_BIT_2;
            self.kicker_count = if is_manual {
                1
            } else {
                450
            };
        }
        (self.d_out, self.rx_pdo, false)
    }

    fn fsm_state_start_kick_02(
        &mut self,
        _servo_tx: ServoTxPdo,
        _d_in: u16,
        is_manual: bool,
    ) -> (out: (u16, ServoRxPdo, bool))
        requires
            old(self)@.state is StartKick02,
            old(self)@.wf(),
        ensures
            final(self)@ == old(self)@.step(_servo_tx, _d_in, is_manual),
            out == (final(self)@.d_out, final(self)@.rx_pdo, false),
        no_unwind
    {
        self.kicker_count -= 1;
        if self.kicker_count == 0 {
            proof {
                lemma_feeder2nd_bits_within_mask();
                lemma_replace_masked_bits(
                    self.d_out,
                    FEEDER_2ND_OUT_BITS_2_3,
                    FEEDER_2ND_OUT_BIT_MASK,
                );
            }
            self.state = Feeder2ndState::StartKick03;
            self.d_out = (self.d_out & !FEEDER_2ND_OUT_BIT_MASK) | FEEDER_2ND_OUT_BITS_2_3;
            self.kicker_count = if is_manual {
                3
            } else {
                850
            };
        }
        (self.d_out, self.rx_pdo, false)
    }

    fn fsm_state_start_kick_03(
        &mut self,
        _servo_tx: ServoTxPdo,
        _d_in: u16,
        _is_manual: bool,
    ) -> (out: (u16, ServoRxPdo, bool))
        requires
            old(self)@.state is StartKick03,
            old(self)@.wf(),
        ensures
            final(self)@ == old(self)@.step(_servo_tx, _d_in, _is_manual),
            out == (final(self)@.d_out, final(self)@.rx_pdo, false),
        no_unwind
    {
        self.kicker_count -= 1;
        if (self.kicker_count == BREAKER_AT_AUTO) || (self.kicker_count == BREAKER_AT_MANUAL) {
            proof {
                lemma_replace_masked_bits(
                    self.d_out,
                    FEEDER_2ND_OUT_BIT_BKR,
                    FEEDER_2ND_OUT_BIT_MASK,
                );
            }
            self.d_out = (self.d_out & !FEEDER_2ND_OUT_BIT_MASK) | FEEDER_2ND_OUT_BIT_BKR;
        }
        if self.kicker_count == 0 {
            self.state = Feeder2ndState::MoveToEnd;
            self.servo_mover.set_target(FEEDER_2ND_POS_END);
        }
        (self.d_out, self.rx_pdo, false)
    }

    fn fsm_state_move_to_end(
        &mut self,
        servo_tx: ServoTxPdo,
        _d_in: u16,
        _is_manual: bool,
    ) -> (out: (u16, ServoRxPdo, bool))
        requires
            old(self)@.state is MoveToEnd,
        ensures
            final(self)@ == old(self)@.step(servo_tx, _d_in, _is_manual),
            out == (final(self)@.d_out, final(self)@.rx_pdo, old(self)@.reaches_end(servo_tx)),
        no_unwind
    {
        let target_reached = self.servo_mover.update(servo_tx, &mut self.rx_pdo);
        if target_reached {
            self.state = Feeder2ndState::EndPending;
        }
        (self.d_out, self.rx_pdo, target_reached)
    }

    /// Waits for the third stage to take the part.
    fn fsm_state_end_pending(
        &mut self,
        _servo_tx: ServoTxPdo,
        _d_in: u16,
        _is_manual: bool,
    ) -> (out: (u16, ServoRxPdo, bool))
        requires
            old(self)@.state is EndPending,
            old(self)@.wf(),
        ensures
            final(self)@ == old(self)@.step(_servo_tx, _d_in, _is_manual),
            out == (final(self)@.d_out, final(self)@.rx_pdo, false),
        no_unwind
    {
        if self.next_trigger {
            proof {
                lemma_replace_masked_bits(
                    self.d_out,
                    FEEDER_2ND_OUT_BIT_BKR,
                    FEEDER_2ND_OUT_BIT_MASK,
                );
            }
            self.state = Feeder2ndState::MoveToStart;
            self.servo_mover.set_target(FEEDER_2ND_POS_START);
            self.d_out = (self.d_out & !FEEDER_2ND_OUT_BIT_MASK) | FEEDER_2ND_OUT_BIT_BKR;
            self.next_trigger = false;
        }
        (self.d_out, self.rx_pdo, false)
    }

    fn fsm_state_move_to_start(
        &mut self,
        servo_tx: ServoTxPdo,
        _d_in: u16,
        _is_manual: bool,
    ) -> (out: (u16, ServoRxPdo, bool))
        requires
            old(self)@.state is MoveToStart,
        ensures
            final(self)@ == old(self)@.step(servo_tx, _d_in, _is_manual),
            out == (final(self)@.d_out, final(self)@.rx_pdo, false),
        no_unwind
    {
        if self.servo_mover.update(servo_tx, &mut self.rx_pdo) {
            self.state = Feeder2ndState::StartPending;
        }
        (self.d_out, self.rx_pdo, false)
    }
}

} // verus!
