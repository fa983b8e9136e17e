//! The two state machines that talk to one servo drive.
//!
//! [`ServoInitializer`] walks a drive through the CiA 402 power-up sequence
//! until it reports "operation enabled".  [`ServoMover`] then runs
//! profile-position moves: it hands the drive a target with a velocity
//! profile, strobes the new-set-point bit and reports when the drive stands
//! within tolerance of the target.

use vstd::prelude::*;
use super::servo_pdo::{ServoPdo, ServoRxPdo, ServoTxPdo};

verus! {

pub const CTRL_SWITCH_ON_BIT: u16 = 0x0001;

pub const CTRL_ENABLE_VOLTAGE_BIT: u16 = 0x0002;

pub const CTRL_QUICK_STOP_BIT: u16 = 0x0004;

pub const CTRL_ENABLE_OPERATION_BIT: u16 = 0x0008;

pub const CTRL_FAULT_RESET_BIT: u16 = 0x0080;

/// Control-word bit that latches a newly written target into the drive.
pub const CTRL_WORD_NEW_SET_POINT: u16 = 0x0010;

/// Control word "shutdown": quick stop | enable voltage.
pub const CTRL_WORD_SHUTDOWN: u16 = 0x0006;

/// Control word "switch on": quick stop | enable voltage | switch on.
pub const CTRL_WORD_SWITCH_ON: u16 = 0x0007;

/// Control word "enable operation": all four power bits.
pub const CTRL_WORD_ENABLE_OPERATION: u16 = 0x000F;

/// Control word "enable operation" with the new-set-point strobe.
pub const CTRL_WORD_START_MOVE: u16 = 0x001F;

/// Mode of operation "profile position".
pub const MODE_OP_PP: u8 = 0x01;

pub const STATUS_READY_TO_SWITCH_ON_BIT: u16 = 0x0001;

pub const STATUS_SWITCHED_ON_BIT: u16 = 0x0002;

pub const STATUS_OPERATION_ENABLED_BIT: u16 = 0x0004;

pub const STATUS_FAULT_BIT: u16 = 0x0008;

pub const STATUS_VOLTAGE_ENABLED_BIT: u16 = 0x0010;

pub const STATUS_QUICK_STOP_BIT: u16 = 0x0020;

pub const STATUS_TARGET_REACHED_BIT: u16 = 0x0200;

/// Status pattern "ready to switch on": quick stop | ready to switch on.
pub const STATUS_READY: u16 = 0x0021;

/// Status pattern "switched on": voltage enabled | quick stop | switched on
/// | ready to switch on.
pub const STATUS_SWITCHED_ON: u16 = 0x0033;

/// Status pattern "operation enabled": the switched-on pattern with the
/// operation-enabled bit.
pub const STATUS_OPERATION_ENABLED: u16 = 0x0037;

/// Default profile velocity: 1000 rpm at 2^23 counts per revolution, in
/// counts per second.
pub const PROFILE_VELOCITY: u32 = 139_810_133;

/// Profile acceleration in counts per second squared: the default profile
/// velocity reached in 0.42 s.
pub const PROFILE_ACCELERATION: u32 = 332_881_269;

/// Profile deceleration in counts per second squared: the default profile
/// velocity shed in 0.42 s.
pub const PROFILE_DECELERATION: u32 = 332_881_269;

/// A move is complete when the drive stands closer than this many counts to
/// its target.
pub const POSITION_TOLERANCE: i32 = 14_200;

/// Largest speed in rpm whose count rate fits the 32-bit velocity field.
pub const MAX_PROFILE_RPM: u32 = 30_719;

/// Each control word and each status pattern is the union of its bits.
pub proof fn lemma_words_are_unions_of_bits()
    ensures
        CTRL_WORD_SHUTDOWN == CTRL_QUICK_STOP_BIT | CTRL_ENABLE_VOLTAGE_BIT,
        CTRL_WORD_SWITCH_ON == CTRL_WORD_SHUTDOWN | CTRL_SWITCH_ON_BIT,
        CTRL_WORD_ENABLE_OPERATION == CTRL_WORD_SWITCH_ON | CTRL_ENABLE_OPERATION_BIT,
        CTRL_WORD_START_MOVE == CTRL_WORD_ENABLE_OPERATION | CTRL_WORD_NEW_SET_POINT,
        STATUS_READY == STATUS_QUICK_STOP_BIT | STATUS_READY_TO_SWITCH_ON_BIT,
        STATUS_SWITCHED_ON == STATUS_READY | STATUS_VOLTAGE_ENABLED_BIT | STATUS_SWITCHED_ON_BIT,
        STATUS_OPERATION_ENABLED == STATUS_SWITCHED_ON | STATUS_OPERATION_ENABLED_BIT,
{
    assert(0x0006u16 == 0x0004u16 | 0x0002u16 && 0x0007u16 == 0x0006u16 | 0x0001u16 && 0x000Fu16
        == 0x0007u16 | 0x0008u16 && 0x001Fu16 == 0x000Fu16 | 0x0010u16 && 0x0021u16 == 0x0020u16
        | 0x0001u16 && 0x0033u16 == 0x0021u16 | 0x0010u16 | 0x0002u16 && 0x0037u16 == 0x0033u16
        | 0x0004u16) by (bit_vector);
}

/// Where a drive stands in the power-up sequence.
#[derive(Clone, Copy, Debug, PartialEq, Eq, Structural)]
pub enum InitState {
    Start,
    FaultReset,
    ReadyToSwitchOn,
    SwitchOn,
    EnableOperation,
    OperationEnabled,
}

/// True when every bit of `pattern` is set in `status_word`.
pub open spec fn status_has(status_word: u16, pattern: u16) -> bool {
    status_word & pattern == pattern
}

/// The command image of the power-up sequence: the given control word, mode
/// of operation "profile position" and no motion profile.
pub open spec fn idle_command(control_word: u16) -> ServoRxPdo {
    ServoRxPdo {
        control_word,
        target_position: 0,
        profile_velocity: 0,
        profile_acceleration: 0,
        profile_deceleration: 0,
        mode_of_operation: MODE_OP_PP,
    }
}

impl InitState {
    /// The state after one cycle in which the drive reported `status_word`.
    pub open spec fn next(self, status_word: u16) -> InitState {
        match self {
            InitState::Start => InitState::FaultReset,
            InitState::FaultReset => if status_word & STATUS_FAULT_BIT == 0 {
                InitState::ReadyToSwitchOn
            } else {
                InitState::FaultReset
            },
            InitState::ReadyToSwitchOn => if status_has(status_word, STATUS_READY) {
                InitState::SwitchOn
            } else {
                InitState::ReadyToSwitchOn
            },
            InitState::SwitchOn => if status_has(status_word, STATUS_SWITCHED_ON) {
                InitState::EnableOperation
            } else {
                InitState::SwitchOn
            },
            InitState::EnableOperation => if status_has(status_word, STATUS_OPERATION_ENABLED) {
                InitState::OperationEnabled
            } else {
                InitState::EnableOperation
            },
            InitState::OperationEnabled => InitState::OperationEnabled,
        }
    }

    /// The command image written in a cycle that starts in this state: the
    /// control word of the state, always in mode "profile position".
    pub open spec fn command(self) -> ServoRxPdo {
        match self {
            InitState::Start => idle_command(0),
            InitState::FaultReset => idle_command(CTRL_FAULT_RESET_BIT),
            InitState::ReadyToSwitchOn => idle_command(CTRL_WORD_SHUTDOWN),
            InitState::SwitchOn => idle_command(CTRL_WORD_SWITCH_ON),
            InitState::EnableOperation => idle_command(CTRL_WORD_ENABLE_OPERATION),
            InitState::OperationEnabled => idle_command(CTRL_WORD_ENABLE_OPERATION),
        }
    }

    /// Whether a cycle that starts in this state reports the drive as ready.
    pub open spec fn done(self) -> bool {
        self is OperationEnabled
    }

    /// The state after the cycles whose status words are `status_words`, in
    /// order.
    pub open spec fn run(self, status_words: Seq<u16>) -> InitState
        decreases status_words.len(),
    {
        if status_words.len() == 0 {
            self
        } else {
            self.next(status_words[0]).run(status_words.drop_first())
        }
    }
}

/// Once the power-up sequence reports done, it reports done in every later
/// cycle, whatever the drive sends.
pub proof fn lemma_init_done_is_stable(state: InitState, status_words: Seq<u16>)
    requires
        state.done(),
    ensures
        state.run(status_words).done(),
    decreases status_words.len(),
{
    if status_words.len() > 0 {
        lemma_init_done_is_stable(state.next(status_words[0]), status_words.drop_first());
    }
}

/// The power-up sequence takes five cycles at least, and exactly five when
/// the drive clears its fault and then shows each status pattern in turn.
/// The fifth cycle writes the control word "enable operation".
pub proof fn lemma_init_takes_five_cycles(status_words: Seq<u16>)
    ensures
        status_words.len() < 5 ==> !(InitState::Start.run(status_words) is OperationEnabled),
        status_words.len() == 5 && status_words[1] & STATUS_FAULT_BIT == 0 && status_has(
            status_words[2],
            STATUS_READY,
        ) && status_has(status_words[3], STATUS_SWITCHED_ON) && status_has(
            status_words[4],
            STATUS_OPERATION_ENABLED,
        ) ==> InitState::Start.run(status_words) is OperationEnabled && InitState::Start.run(
            status_words.take(4),
        ).command().control_word == CTRL_WORD_ENABLE_OPERATION,
{
    reveal_with_fuel(InitState::run, 6);
    if status_words.len() == 5 {
        assert(status_words.take(4).len() == 4);
        assert(status_words.take(4)[0] == status_words[0]);
        assert(status_words.take(4)[1] == status_words[1]);
        assert(status_words.take(4)[2] == status_words[2]);
        assert(status_words.take(4)[3] == status_words[3]);
    }
}

/// Brings one drive to "operation enabled".
pub struct ServoInitializer {
    pub fsm: ServoInitializerFsm,
}

/// The power-up state machine of one drive.
pub struct ServoInitializerFsm {
    state: InitState,
}

impl View for ServoInitializerFsm {
    type V = InitState;

    closed spec fn view(&self) -> InitState {
        self.state
    }
}

impl View for ServoInitializer {
    type V = InitState;

    open spec fn view(&self) -> InitState {
        self.fsm@
    }
}

impl ServoInitializer {
    pub fn new() -> (s: Self)
        ensures
            s@ == InitState::Start,
        no_unwind
    {
        Self { fsm: ServoInitializerFsm::new() }
    }

    /// Runs one cycle on the drive slot `pdo`: reads its status word, writes
    /// its command image and returns whether the drive was already enabled
    /// when the cycle began.
    pub fn update(&mut self, pdo: &mut ServoPdo) -> (done: bool)
        ensures
            final(self)@ == old(self)@.next(old(pdo).tx.status_word),
            final(pdo).rx == old(self)@.command(),
            final(pdo).rx.mode_of_operation == MODE_OP_PP,
            final(pdo).rx == idle_command(final(pdo).rx.control_word),
            final(pdo).tx == old(pdo).tx,
            done == old(self)@.done(),
            done ==> final(self)@.done(),
        no_unwind
    {
        let tx = pdo.tx;
        self.fsm.update(&tx, &mut pdo.rx)
    }

    /// The current state.
    pub fn state(&self) -> (s: InitState)
        ensures
            s == self@,
        no_unwind
    {
        self.fsm.state()
    }
}

impl Default for ServoInitializer {
    fn default() -> (s: Self)
        ensures
            s@ == InitState::Start,
    {
        Self::new()
    }
}

impl ServoInitializerFsm {
    pub fn new() -> (s: Self)
        ensures
            s@ == InitState::Start,
        no_unwind
    {
        Self { state: InitState::Start }
    }

    /// The current state.
    pub fn state(&self) -> (s: InitState)
        ensures
            s == self@,
        no_unwind
    {
        self.state
    }

    /// Runs the handler of the current state.
    pub fn update(&mut self, tx: &ServoTxPdo, rx: &mut ServoRxPdo) -> (done: bool)
        ensures
            final(self)@ == old(self)@.next(tx.status_word),
            *final(rx) == old(self)@.command(),
            done == old(self)@.done(),
        no_unwind
    {
        match self.state {
            InitState::Start => self.fsm_state_start(tx, rx),
            InitState::FaultReset => self.fsm_state_fault_reset(tx, rx),
            InitState::ReadyToSwitchOn => self.fsm_state_ready_to_switch_on(tx, rx),
            InitState::SwitchOn => self.fsm_state_switch_on(tx, rx),
            InitState::EnableOperation => self.fsm_state_enable_operation(tx, rx),
            InitState::OperationEnabled => self.fsm_state_operation_enabled(tx, rx),
        }
    }

    fn fsm_state_start(&mut self, _tx: &ServoTxPdo, rx: &mut ServoRxPdo) -> (done: bool)
        requires
            old(self)@ is Start,
        ensures
            final(self)@ == InitState::FaultReset,
            *final(rx) == idle_command(0),
            !done,
        no_unwind
    {
        self.state = InitState::FaultReset;
        rx.control_word = 0;
        rx.target_position = 0;
        rx.profile_velocity = 0;
        rx.profile_acceleration = 0;
        rx.profile_deceleration = 0;
        rx.mode_of_operation = MODE_OP_PP;
        false
    }

    fn fsm_state_fault_reset(&mut self, tx: &ServoTxPdo, rx: &mut ServoRxPdo) -> (done: bool)
        requires
            old(self)@ is FaultReset,
        ensures
            final(self)@ == if tx.status_word & STATUS_FAULT_BIT == 0 {
                InitState::ReadyToSwitchOn
            } else {
                InitState::FaultReset
            },
            *final(rx) == idle_command(CTRL_FAULT_RESET_BIT),
            !done,
        no_unwind
    {
        if tx.status_word & STATUS_FAULT_BIT == 0 {
            self.state = InitState::ReadyToSwitchOn;
        }
        rx.control_word = CTRL_FAULT_RESET_BIT;
        rx.target_position = 0;
        rx.profile_velocity = 0;
        rx.profile_acceleration = 0;
        rx.profile_deceleration = 0;
        rx.mode_of_operation = MODE_OP_PP;
        false
    }

    fn fsm_state_ready_to_switch_on(&mut self, tx: &ServoTxPdo, rx: &mut ServoRxPdo) -> (done: bool)
        requires
            old(self)@ is ReadyToSwitchOn,
        ensures
            final(self)@ == if status_has(tx.status_word, STATUS_READY) {
                InitState::SwitchOn
            } else {
                InitState::ReadyToSwitchOn
            },
            *final(rx) == idle_command(CTRL_WORD_SHUTDOWN),
            !done,
        no_unwind
    {
        if tx.status_word & STATUS_READY == STATUS_READY {
            self.state = InitState::SwitchOn;
        }
        rx.control_word = CTRL_WORD_SHUTDOWN;

        rx.target_position = 0;
        rx.profile_velocity = 0;
        rx.profile_acceleration = 0;
        rx.profile_deceleration = 0;

        rx.mode_of_operation = MODE_OP_PP;
        false
    }

    fn fsm_state_switch_on(&mut self, tx: &ServoTxPdo, rx: &mut ServoRxPdo) -> (done: bool)
        requires
            old(self)@ is SwitchOn,
        ensures
            final(self)@ == if status_has(tx.status_word, STATUS_SWITCHED_ON) {
                InitState::EnableOperation
            } else {
                InitState::SwitchOn
            },
            *final(rx) == idle_command(CTRL_WORD_SWITCH_ON),
            !done,
        no_unwind
    {
        if tx.status_word & STATUS_SWITCHED_ON == STATUS_SWITCHED_ON {
            self.state = InitState::EnableOperation;
        }
        rx.control_word = CTRL_WORD_SWITCH_ON;

        rx.target_position = 0;
        rx.profile_velocity = 0;
        rx.profile_acceleration = 0;
        rx.profile_deceleration = 0;

        rx.mode_of_operation = MODE_OP_PP;
        false
    }

    fn fsm_state_enable_operation(&mut self, tx: &ServoTxPdo, rx: &mut ServoRxPdo) -> (done: bool)
        requires
            old(self)@ is EnableOperation,
        ensures
            final(self)@ == if status_has(tx.status_word, STATUS_OPERATION_ENABLED) {
                InitState::OperationEnabled
            } else {
                InitState::EnableOperation
            },
            *final(rx) == idle_command(CTRL_WORD_ENABLE_OPERATION),
            !done,
        no_unwind
    {
        if tx.status_word & STATUS_OPERATION_ENABLED == STATUS_OPERATION_ENABLED {
            self.state = InitState::OperationEnabled;
        }
        rx.control_word = CTRL_WORD_ENABLE_OPERATION;

        rx.target_position = 0;
        rx.profile_velocity = 0;
        rx.profile_acceleration = 0;
        rx.profile_deceleration = 0;

        rx.mode_of_operation = MODE_OP_PP;
        false
    }

    fn fsm_state_operation_enabled(&mut self, _tx: &ServoTxPdo, rx: &mut ServoRxPdo) -> (done: bool)
        requires
            old(self)@ is OperationEnabled,
        ensures
            final(self)@ == InitState::OperationEnabled,
            *final(rx) == idle_command(CTRL_WORD_ENABLE_OPERATION),
            done,
        no_unwind
    {
        rx.control_word = CTRL_WORD_ENABLE_OPERATION;

        rx.target_position = 0;
        rx.profile_velocity = 0;
        rx.profile_acceleration = 0;
        rx.profile_deceleration = 0;

        rx.mode_of_operation = MODE_OP_PP;
        true
    }
}

impl Default for ServoInitializerFsm {
    fn default() -> (s: Self)
        ensures
            s@ == InitState::Start,
    {
        Self::new()
    }
}

/// Which step of a profile-position move comes next.
#[derive(Clone, Copy, Debug, PartialEq, Eq, Structural)]
pub enum MoverState {
    Init,
    Profile,
    TriggerNewSetPoint,
    WaitTargetReached,
}

/// True when `actual` lies closer than the position tolerance to `target`.
pub open spec fn within_tolerance(actual: i32, target: i32) -> bool {
    -POSITION_TOLERANCE < actual - target < POSITION_TOLERANCE
}

/// True when the drive reports that it has reached its commanded target.
pub open spec fn target_reached(status_word: u16) -> bool {
    status_word & STATUS_TARGET_REACHED_BIT == STATUS_TARGET_REACHED_BIT
}

/// The count rate in counts per second of `rpm` revolutions per minute, at
/// 2^23 counts per revolution.
pub open spec fn rpm_to_count_rate(rpm: int) -> int {
    rpm * 8_388_608 / 60
}

/// The command that holds the drive where it stands.
pub open spec fn hold_command(actual: i32) -> ServoRxPdo {
    ServoRxPdo {
        control_word: CTRL_WORD_ENABLE_OPERATION,
        target_position: actual,
        profile_velocity: 0,
        profile_acceleration: 0,
        profile_deceleration: 0,
        mode_of_operation: MODE_OP_PP,
    }
}

/// The command that carries the full motion profile of a move.
pub open spec fn profile_command(
    control_word: u16,
    target_position: i32,
    profile_velocity: u32,
) -> ServoRxPdo {
    ServoRxPdo {
        control_word,
        target_position,
        profile_velocity,
        profile_acceleration: PROFILE_ACCELERATION,
        profile_deceleration: PROFILE_DECELERATION,
        mode_of_operation: MODE_OP_PP,
    }
}

impl MoverState {
    /// Whether a cycle that starts in this state finds the move complete.
    pub open spec fn completes(self, target_position: i32, tx: ServoTxPdo) -> bool {
        self is Init && within_tolerance(tx.position_actual_value, target_position)
    }

    /// The state after one cycle with feedback `tx`.
    pub open spec fn next(self, target_position: i32, tx: ServoTxPdo) -> MoverState {
        match self {
            MoverState::Init => if !within_tolerance(tx.position_actual_value, target_position)
                && target_reached(tx.status_word) {
                MoverState::Profile
            } else {
                MoverState::Init
            },
            MoverState::Profile => MoverState::TriggerNewSetPoint,
            MoverState::TriggerNewSetPoint => MoverState::WaitTargetReached,
            MoverState::WaitTargetReached => if target_reached(tx.status_word) {
                MoverState::Init
            } else {
                MoverState::WaitTargetReached
            },
        }
    }

    /// The command image after one cycle with feedback `tx`, where `rx` is
    /// the image before it.  A cycle that finds the move complete leaves the
    /// image as it is.
    pub open spec fn command(
        self,
        target_position: i32,
        profile_velocity: u32,
        tx: ServoTxPdo,
        rx: ServoRxPdo,
    ) -> ServoRxPdo {
        match self {
            MoverState::Init => if within_tolerance(tx.position_actual_value, target_position) {
                rx
            } else {
                hold_command(tx.position_actual_value)
            },
            MoverState::Profile => profile_command(
                CTRL_WORD_ENABLE_OPERATION,
                target_position,
                profile_velocity,
            ),
            MoverState::TriggerNewSetPoint => profile_command(
                CTRL_WORD_START_MOVE,
                target_position,
                profile_velocity,
            ),
            MoverState::WaitTargetReached => profile_command(
                CTRL_WORD_ENABLE_OPERATION,
                target_position,
                profile_velocity,
            ),
        }
    }
}

/// What a [`ServoMover`] stands for.
pub struct MoverModel {
    pub state: MoverState,
    pub target_position: i32,
    pub profile_velocity: u32,
    /// Whether the last cycle found the move complete; a new target is
    /// accepted only then.
    pub ready: bool,
}

impl MoverModel {
    /// A mover that has just been made: at rest, with target 0.
    pub open spec fn initial() -> MoverModel {
        MoverModel {
            state: MoverState::Init,
            target_position: 0,
            profile_velocity: PROFILE_VELOCITY,
            ready: true,
        }
    }

    /// Whether a cycle with feedback `tx` finds the move complete.
    pub open spec fn completes(self, tx: ServoTxPdo) -> bool {
        self.state.completes(self.target_position, tx)
    }

    /// The mover after one cycle with feedback `tx`.
    pub open spec fn step(self, tx: ServoTxPdo) -> MoverModel {
        MoverModel {
            state: self.state.next(self.target_position, tx),
            ready: self.completes(tx),
            ..self
        }
    }

    /// The command image after one cycle with feedback `tx`, where `rx` is
    /// the image before it.
    pub open spec fn command(self, tx: ServoTxPdo, rx: ServoRxPdo) -> ServoRxPdo {
        self.state.command(self.target_position, self.profile_velocity, tx, rx)
    }

    /// The mover after a request to move to `target_position`: taken up if
    /// the mover is ready, ignored otherwise.
    pub open spec fn with_target(self, target_position: i32) -> MoverModel {
        if self.ready {
            MoverModel { target_position, state: MoverState::Init, ..self }
        } else {
            self
        }
    }

    /// The mover after its speed has been set to `rpm`.
    pub open spec fn with_rpm(self, rpm: u32) -> MoverModel {
        MoverModel { profile_velocity: rpm_to_count_rate(rpm as int) as u32, ..self }
    }
}

/// A new target is accepted exactly when the cycle before found the move
/// complete.
pub proof fn lemma_target_accepted_iff_last_update_completed(
    mover: MoverModel,
    tx: ServoTxPdo,
    target_position: i32,
)
    ensures
        mover.step(tx).ready == mover.completes(tx),
        mover.completes(tx) ==> mover.step(tx).with_target(target_position) == (MoverModel {
            target_position,
            state: MoverState::Init,
            ..mover.step(tx)
        }),
        !mover.completes(tx) ==> mover.step(tx).with_target(target_position) == mover.step(tx),
{
}

/// A cycle finds the move complete only if the drive stands within
/// tolerance of the target.  When the mover is at rest, and so in the first
/// cycle after a target was accepted, it finds the move complete exactly when
/// the drive stands within tolerance.
pub proof fn lemma_complete_iff_within_tolerance(
    mover: MoverModel,
    tx: ServoTxPdo,
    target_position: i32,
)
    ensures
        mover.completes(tx) ==> within_tolerance(tx.position_actual_value, mover.target_position),
        mover.state is Init ==> (mover.completes(tx) <==> within_tolerance(
            tx.position_actual_value,
            mover.target_position,
        )),
        mover.ready ==> (mover.with_target(target_position).completes(tx) <==> within_tolerance(
            tx.position_actual_value,
            target_position,
        )),
{
}

/// Runs profile-position moves on one drive.
pub struct ServoMover {
    target_position: i32,
    profile_velocity: u32,
    ready: bool,
    fsm: ServoMoverFsm,
}

/// The move state machine of one drive.
struct ServoMoverFsm {
    state: MoverState,
}

impl View for ServoMoverFsm {
    type V = MoverState;

    closed spec fn view(&self) -> MoverState {
        self.state
    }
}

impl View for ServoMover {
    type V = MoverModel;

    closed spec fn view(&self) -> MoverModel {
        MoverModel {
            state: self.fsm@,
            target_position: self.target_position,
            profile_velocity: self.profile_velocity,
            ready: self.ready,
        }
    }
}

impl ServoMover {
    /// Asks for a move to `target_position`.  The request is taken up only
    /// while the mover is ready; the result says whether it was.
    pub fn set_target(&mut self, target_position: i32) -> (accepted: bool)
        ensures
            accepted == old(self)@.ready,
            final(self)@ == old(self)@.with_target(target_position),
        no_unwind
    {
        if !self.ready {
            return false;
        }
        self.target_position = target_position;
        self.fsm.state = MoverState::Init;
        true
    }

    /// Sets the speed of the moves to come, in revolutions per minute.
    pub fn set_profile_velocity(&mut self, rpm: u32)
        requires
            rpm <= MAX_PROFILE_RPM,
        ensures
            final(self)@ == old(self)@.with_rpm(rpm),
            final(self)@.profile_velocity == rpm_to_count_rate(rpm as int),
        no_unwind
    {
        let counts_per_minute: u64 = rpm as u64 * 8_388_608;
        self.profile_velocity = (counts_per_minute / 60) as u32;
    }

    pub fn new() -> (m: Self)
        ensures
            m@ == MoverModel::initial(),
        no_unwind
    {
        ServoMover {
            ready: true,
            target_position: 0,
            profile_velocity: PROFILE_VELOCITY,
            fsm: ServoMoverFsm { state: MoverState::Init },
        }
    }

    /// Runs one cycle: reads the feedback `servo_tx`, writes the next command
    /// into `servo_rx` and returns whether the move is complete, that is
    /// whether the mover was at rest and the drive stands within tolerance of
    /// the target.
    pub fn update(&mut self, servo_tx: ServoTxPdo, servo_rx: &mut ServoRxPdo) -> (complete: bool)
        ensures
            final(self)@ == old(self)@.step(servo_tx),
            *final(servo_rx) == old(self)@.command(servo_tx, *old(servo_rx)),
            complete == old(self)@.completes(servo_tx),
            complete ==> within_tolerance(
                servo_tx.position_actual_value,
                old(self)@.target_position,
            ),
        no_unwind
    {
        self.ready = self.fsm.update(
            self.target_position,
            self.profile_velocity,
            servo_tx,
            servo_rx,
        );
        self.ready
    }

    /// Whether the last cycle found the move complete.
    pub fn is_ready(&self) -> (ready: bool)
        ensures
            ready == self@.ready,
        no_unwind
    {
        self.ready
    }

    /// The step of the move that comes next.
    pub fn state(&self) -> (s: MoverState)
        ensures
            s == self@.state,
        no_unwind
    {
        self.fsm.state
    }

    /// The position the mover drives to.
    pub fn target_position(&self) -> (p: i32)
        ensures
            p == self@.target_position,
        no_unwind
    {
        self.target_position
    }

    /// The speed of the moves, in counts per second.
    pub fn profile_velocity(&self) -> (v: u32)
        ensures
            v == self@.profile_velocity,
        no_unwind
    {
        self.profile_velocity
    }
}

impl Default for ServoMover {
    fn default() -> (m: Self)
        ensures
            m@ == MoverModel::initial(),
    {
        Self::new()
    }
}

impl ServoMoverFsm {
    /// Runs the handler of the current state.
    fn update(
        &mut self,
        target_pos: i32,
        profile_velocity: u32,
        servo_tx: ServoTxPdo,
        servo_rx: &mut ServoRxPdo,
    ) -> (complete: bool)
        ensures
            final(self)@ == old(self)@.next(target_pos, servo_tx),
            *final(servo_rx) == old(self)@.command(
                target_pos,
                profile_velocity,
                servo_tx,
                *old(servo_rx),
            ),
            complete == old(self)@.completes(target_pos, servo_tx),
        no_unwind
    {
        match self.state {
            MoverState::Init => self.fsm_state_servo_mover_init(
                target_pos,
                profile_velocity,
                servo_tx,
                servo_rx,
            ),
            MoverState::Profile => self.fsm_state_servo_profile(
                target_pos,
                profile_velocity,
                servo_tx,
                servo_rx,
            ),
            MoverState::TriggerNewSetPoint => self.fsm_state_servo_trigger_new_set_point(
                target_pos,
                profile_velocity,
                servo_tx,
                servo_rx,
            ),
            MoverState::WaitTargetReached => self.fsm_state_servo_wait_for_target_reached(
                target_pos,
                profile_velocity,
                servo_tx,
                servo_rx,
            ),
        }
    }

    fn fsm_state_servo_mover_init(
        &mut self,
        target_pos: i32,
        _profile_velocity: u32,
        servo_tx: ServoTxPdo,
        servo_rx: &mut ServoRxPdo,
    ) -> (complete: bool)
        requires
            old(self)@ is Init,
        ensures
            complete == within_tolerance(servo_tx.position_actual_value, target_pos),
            complete ==> final(self)@ is Init && *final(servo_rx) == *old(servo_rx),
            !complete ==> *final(servo_rx) == hold_command(servo_tx.position_actual_value),
            !complete ==> final(self)@ == if target_reached(servo_tx.status_word) {
                MoverState::Profile
            } else {
                MoverState::Init
            },
        no_unwind
    {
        let actual_pos = servo_tx.position_actual_value;
        let distance: i64 = actual_pos as i64 - target_pos as i64;

        if -(POSITION_TOLERANCE as i64) < distance && distance < POSITION_TOLERANCE as i64 {
            return true;
        }
        if servo_tx.status_word & STATUS_TARGET_REACHED_BIT == STATUS_TARGET_REACHED_BIT {
            self.state = MoverState::Profile;
        }
        servo_rx.control_word = CTRL_WORD_ENABLE_OPERATION;
        servo_rx.target_position = actual_pos;
        servo_rx.profile_velocity = 0;
        servo_rx.profile_acceleration = 0;
        servo_rx.profile_deceleration = 0;
        servo_rx.mode_of_operation = MODE_OP_PP;

        false
    }

    fn fsm_state_servo_profile(
        &mut self,
        target_pos: i32,
        profile_velocity: u32,
        _servo_tx: ServoTxPdo,
        servo_rx: &mut ServoRxPdo,
    ) -> (complete: bool)
        requires
            old(self)@ is Profile,
        ensures
            !complete,
            final(self)@ is TriggerNewSetPoint,
            *final(servo_rx) == profile_command(
                CTRL_WORD_ENABLE_OPERATION,
                target_pos,
                profile_velocity,
            ),
        no_unwind
    {
        servo_rx.control_word = CTRL_WORD_ENABLE_OPERATION;
        servo_rx.target_position = target_pos;
        servo_rx.profile_velocity = profile_velocity;
        servo_rx.profile_acceleration = PROFILE_ACCELERATION;
        servo_rx.profile_deceleration = PROFILE_DECELERATION;
        servo_rx.mode_of_operation = MODE_OP_PP;

        self.state = MoverState::TriggerNewSetPoint;

        false
    }

    fn fsm_state_servo_trigger_new_set_point(
        &mut self,
        target_pos: i32,
        profile_velocity: u32,
        _servo_tx: ServoTxPdo,
        servo_rx: &mut ServoRxPdo,
    ) -> (complete: bool)
        requires
            old(self)@ is TriggerNewSetPoint,
        ensures
            !complete,
            final(self)@ is WaitTargetReached,
            *final(servo_rx) == profile_command(CTRL_WORD_START_MOVE, target_pos, profile_velocity),
        no_unwind
    {
        self.state = MoverState::WaitTargetReached;
        servo_rx.control_word = CTRL_WORD_START_MOVE;
        servo_rx.target_position = target_pos;
        servo_rx.profile_velocity = profile_velocity;
        servo_rx.profile_acceleration = PROFILE_ACCELERATION;
        servo_rx.profile_deceleration = PROFILE_DECELERATION;
        servo_rx.mode_of_operation = MODE_OP_PP;

        false
    }

    fn fsm_state_servo_wait_for_target_reached(
        &mut self,
        target_pos: i32,
        profile_velocity: u32,
        servo_tx: ServoTxPdo,
        servo_rx: &mut ServoRxPdo,
    ) -> (complete: bool)
        requires
            old(self)@ is WaitTargetReached,
        ensures
            !complete,
            final(self)@ == if target_reached(servo_tx.status_word) {
                MoverState::Init
            } else {
                MoverState::WaitTargetReached
            },
            *final(servo_rx) == profile_command(
                CTRL_WORD_ENABLE_OPERATION,
                target_pos,
                profile_velocity,
            ),
        no_unwind
    {
        servo_rx.control_word = CTRL_WORD_ENABLE_OPERATION;
        servo_rx.target_position = target_pos;
        servo_rx.profile_velocity = profile_velocity;
        servo_rx.profile_acceleration = PROFILE_ACCELERATION;
        servo_rx.profile_deceleration = PROFILE_DECELERATION;
        servo_rx.mode_of_operation = MODE_OP_PP;

        if servo_tx.status_word & STATUS_TARGET_REACHED_BIT == STATUS_TARGET_REACHED_BIT {
            self.state = MoverState::Init;
        }
        false
    }
}

} // verus!
