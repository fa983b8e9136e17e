//! The process-data frame, the run-phase arbiter and the outer state machine.
//!
//! The frame is packed and little-endian, 54 bytes long:
//!
//! | bytes    | content                                  | written by |
//! |----------|------------------------------------------|------------|
//! | 0..19    | drive 0 command image (RX)               | core       |
//! | 19..25   | drive 0 feedback image (TX)              | transport  |
//! | 25..44   | drive 1 command image (RX)               | core       |
//! | 44..50   | drive 1 feedback image (TX)              | transport  |
//! | 50..52   | digital outputs                          | core       |
//! | 52..54   | digital inputs                           | transport  |

use vstd::prelude::*;
use crate::codec::{
    lemma_overlay_keeps_u16, read_u16_le, spec_overlay, spec_u16_le, spec_u16_to_le, write_u16_le,
};
use crate::bits::within_mask;
use crate::feeder::feeder1st::{
    lemma_feeder1st_step_wf, lemma_feeder1st_within_mask, Feeder1st, Feeder1stModel,
    FEEDER_1ST_OUT_BIT_MASK,
};
use crate::feeder::feeder2nd::{
    lemma_feeder2nd_command, lemma_feeder2nd_step_wf, Feeder2nd, Feeder2ndModel,
    FEEDER_2ND_OUT_BIT_MASK,
};
use crate::feeder::feeder3rd::{
    lemma_feeder3rd_command, lemma_feeder3rd_step_wf, Feeder3rd, Feeder3rdModel,
    FEEDER_3RD_OUT_BIT_MASK,
};
use crate::servo::servo::{InitState, ServoInitializer};
use crate::servo::servo_pdo::{PDO_SIZE, RX_PDO_SIZE, ServoPdo, ServoRxPdo, ServoTxPdo};

verus! {

/// Bytes of one frame: two drive slots and two 16-bit digital words.
pub const DOMAIN_SIZE: usize = 54;

/// Byte offset of the digital output word.
pub const DIGITAL_OUTPUTS_OFFSET: usize = 50;

/// Byte offset of the digital input word.
pub const DIGITAL_INPUTS_OFFSET: usize = 52;

/// Digital input: mode switch, set for automatic mode.
pub const MODE_SWITCH_BIT: u16 = 0x8000;

/// Digital input: operator button.
pub const OP_BUTTON_BIT: u16 = 0x4000;

/// What a [`DomainData`] stands for: the frame as typed fields.
pub struct Frame {
    pub servo0: ServoPdo,
    pub servo1: ServoPdo,
    pub digital_outputs: u16,
    pub digital_inputs: u16,
}

impl Frame {
    /// The frame that the 54 bytes `s` encode.
    pub open spec fn spec_from_bytes(s: Seq<u8>) -> Frame {
        Frame {
            servo0: ServoPdo::spec_at(s, 0),
            servo1: ServoPdo::spec_at(s, PDO_SIZE as int),
            digital_outputs: spec_u16_le(s, DIGITAL_OUTPUTS_OFFSET as int) as u16,
            digital_inputs: spec_u16_le(s, DIGITAL_INPUTS_OFFSET as int) as u16,
        }
    }

    /// Drive slot `i` of the frame.
    pub open spec fn servo(self, i: int) -> ServoPdo {
        if i == 0 {
            self.servo0
        } else {
            self.servo1
        }
    }

    /// The frame with the command image of drive slot `i` replaced.
    pub open spec fn with_servo_rx(self, i: int, rx: ServoRxPdo) -> Frame {
        if i == 0 {
            Frame { servo0: ServoPdo { rx, ..self.servo0 }, ..self }
        } else {
            Frame { servo1: ServoPdo { rx, ..self.servo1 }, ..self }
        }
    }

    /// The frame with the feedback image of drive slot `i` replaced.
    pub open spec fn with_servo_tx(self, i: int, tx: ServoTxPdo) -> Frame {
        if i == 0 {
            Frame { servo0: ServoPdo { tx, ..self.servo0 }, ..self }
        } else {
            Frame { servo1: ServoPdo { tx, ..self.servo1 }, ..self }
        }
    }
}

/// Byte offset of drive slot `i`.
pub open spec fn spec_servo_offset(i: int) -> int {
    i * PDO_SIZE as int
}

/// A frame overlaid with bytes reads as before in every field that lies clear
/// of the overlay.
pub proof fn lemma_overlay_keeps_fields(s: Seq<u8>, at: int, src: Seq<u8>)
    requires
        s.len() == DOMAIN_SIZE,
        0 <= at,
        at + src.len() <= s.len(),
    ensures
        19 <= at || at + src.len() <= 0 ==> Frame::spec_from_bytes(
            spec_overlay(s, at, src),
        ).servo0.rx == Frame::spec_from_bytes(s).servo0.rx,
        25 <= at || at + src.len() <= 19 ==> Frame::spec_from_bytes(
            spec_overlay(s, at, src),
        ).servo0.tx == Frame::spec_from_bytes(s).servo0.tx,
        44 <= at || at + src.len() <= 25 ==> Frame::spec_from_bytes(
            spec_overlay(s, at, src),
        ).servo1.rx == Frame::spec_from_bytes(s).servo1.rx,
        50 <= at || at + src.len() <= 44 ==> Frame::spec_from_bytes(
            spec_overlay(s, at, src),
        ).servo1.tx == Frame::spec_from_bytes(s).servo1.tx,
        52 <= at || at + src.len() <= 50 ==> Frame::spec_from_bytes(
            spec_overlay(s, at, src),
        ).digital_outputs == Frame::spec_from_bytes(s).digital_outputs,
        at + src.len() <= 52 ==> Frame::spec_from_bytes(spec_overlay(s, at, src)).digital_inputs
            == Frame::spec_from_bytes(s).digital_inputs,
{
    if 19 <= at || at + src.len() <= 0 {
        ServoRxPdo::lemma_overlay_keeps(s, at, src, 0);
    }
    if 25 <= at || at + src.len() <= 19 {
        ServoTxPdo::lemma_overlay_keeps(s, at, src, 19);
    }
    if 44 <= at || at + src.len() <= 25 {
        ServoRxPdo::lemma_overlay_keeps(s, at, src, 25);
    }
    if 50 <= at || at + src.len() <= 44 {
        ServoTxPdo::lemma_overlay_keeps(s, at, src, 44);
    }
    if 52 <= at || at + src.len() <= 50 {
        lemma_overlay_keeps_u16(s, at, src, 50);
    }
    if at + src.len() <= 52 {
        lemma_overlay_keeps_u16(s, at, src, 52);
    }
}

/// True for the offsets of the bytes that the transport fills and the core
/// only reads: both feedback images and the digital inputs.
pub open spec fn is_input_byte(i: int) -> bool {
    ||| 19 <= i < 25
    ||| 44 <= i < 50
    ||| 52 <= i < 54
}

/// True when `after` holds every input byte of `before` unchanged.
pub open spec fn inputs_untouched(before: Seq<u8>, after: Seq<u8>) -> bool {
    &&& after.len() == before.len()
    &&& forall|i: int| 0 <= i < before.len() && is_input_byte(i) ==> after[i] == before[i]
}

/// One process-data frame: a typed view over its packed bytes.
pub struct DomainData {
    bytes: [u8; 54],
}

impl View for DomainData {
    type V = Frame;

    closed spec fn view(&self) -> Frame {
        Frame::spec_from_bytes(self.bytes@)
    }
}

impl DomainData {
    /// The packed bytes of the frame.
    pub closed spec fn bytes(&self) -> Seq<u8> {
        self.bytes@
    }

    /// The view of a frame is what its bytes encode, and a frame has 54
    /// bytes.
    pub proof fn lemma_view_of_bytes(&self)
        ensures
            self@ == Frame::spec_from_bytes(self.bytes()),
            self.bytes().len() == DOMAIN_SIZE,
    {
    }

    /// A frame over the given bytes.
    pub fn from_bytes(bytes: [u8; 54]) -> (data: Self)
        ensures
            data.bytes() == bytes@,
            data@ == Frame::spec_from_bytes(bytes@),
        no_unwind
    {
        DomainData { bytes }
    }

    /// The packed bytes of the frame.
    pub fn to_bytes(&self) -> (bytes: [u8; 54])
        ensures
            bytes@ == self.bytes(),
    {
        self.bytes
    }

    /// Byte offset of drive slot `i`.
    fn servo_offset(i: usize) -> (at: usize)
        requires
            i < 2,
        ensures
            at == spec_servo_offset(i as int),
            at + PDO_SIZE <= DOMAIN_SIZE,
        no_unwind
    {
        i * PDO_SIZE
    }

    /// The feedback image of drive slot `i`.
    pub fn servo_tx(&self, i: usize) -> (tx: ServoTxPdo)
        requires
            i < 2,
        ensures
            tx == self@.servo(i as int).tx,
        no_unwind
    {
        ServoTxPdo::read_from(&self.bytes, Self::servo_offset(i) + RX_PDO_SIZE)
    }

    /// The command image of drive slot `i`.
    pub fn servo_rx(&self, i: usize) -> (rx: ServoRxPdo)
        requires
            i < 2,
        ensures
            rx == self@.servo(i as int).rx,
        no_unwind
    {
        ServoRxPdo::read_from(&self.bytes, Self::servo_offset(i))
    }

    /// The digital input word.
    pub fn digital_inputs(&self) -> (d_in: u16)
        ensures
            d_in == self@.digital_inputs,
        no_unwind
    {
        read_u16_le(&self.bytes, DIGITAL_INPUTS_OFFSET)
    }

    /// The digital output word.
    pub fn digital_outputs(&self) -> (d_out: u16)
        ensures
            d_out == self@.digital_outputs,
        no_unwind
    {
        read_u16_le(&self.bytes, DIGITAL_OUTPUTS_OFFSET)
    }

    /// Writes the command image of drive slot `i`; every byte outside the
    /// image is kept.
    pub fn set_servo_rx(&mut self, i: usize, rx: ServoRxPdo)
        requires
            i < 2,
        ensures
            final(self)@ == old(self)@.with_servo_rx(i as int, rx),
            final(self).bytes() == spec_overlay(
                old(self).bytes(),
                spec_servo_offset(i as int),
                rx.spec_bytes(),
            ),
            inputs_untouched(old(self).bytes(), final(self).bytes()),
        no_unwind
    {
        proof {
            lemma_overlay_keeps_fields(self.bytes@, spec_servo_offset(i as int), rx.spec_bytes());
        }
        rx.write_to(&mut self.bytes, Self::servo_offset(i));
    }

    /// Writes the digital output word; every other byte is kept.
    pub fn set_digital_outputs(&mut self, d_out: u16)
        ensures
            final(self)@ == (Frame { digital_outputs: d_out, ..old(self)@ }),
            final(self).bytes() == spec_overlay(
                old(self).bytes(),
                DIGITAL_OUTPUTS_OFFSET as int,
                spec_u16_to_le(d_out as int),
            ),
            inputs_untouched(old(self).bytes(), final(self).bytes()),
        no_unwind
    {
        proof {
            lemma_overlay_keeps_fields(
                self.bytes@,
                DIGITAL_OUTPUTS_OFFSET as int,
                spec_u16_to_le(d_out as int),
            );
        }
        write_u16_le(&mut self.bytes, DIGITAL_OUTPUTS_OFFSET, d_out);
    }

    /// Writes the feedback image of drive slot `i`, as the transport does;
    /// every byte outside the image is kept.
    pub fn set_servo_tx(&mut self, i: usize, tx: ServoTxPdo)
        requires
            i < 2,
        ensures
            final(self)@ == old(self)@.with_servo_tx(i as int, tx),
            final(self).bytes() == spec_overlay(
                old(self).bytes(),
                spec_servo_offset(i as int) + RX_PDO_SIZE as int,
                tx.spec_bytes(),
            ),
        no_unwind
    {
        proof {
            lemma_overlay_keeps_fields(
                self.bytes@,
                spec_servo_offset(i as int) + RX_PDO_SIZE as int,
                tx.spec_bytes(),
            );
        }
        tx.write_to(&mut self.bytes, Self::servo_offset(i) + RX_PDO_SIZE);
    }

    /// Writes the digital input word, as the transport does; every other
    /// byte is kept.
    pub fn set_digital_inputs(&mut self, d_in: u16)
        ensures
            final(self)@ == (Frame { digital_inputs: d_in, ..old(self)@ }),
            final(self).bytes() == spec_overlay(
                old(self).bytes(),
                DIGITAL_INPUTS_OFFSET as int,
                spec_u16_to_le(d_in as int),
            ),
        no_unwind
    {
        proof {
            lemma_overlay_keeps_fields(
                self.bytes@,
                DIGITAL_INPUTS_OFFSET as int,
                spec_u16_to_le(d_in as int),
            );
        }
        write_u16_le(&mut self.bytes, DIGITAL_INPUTS_OFFSET, d_in);
    }
}

/// Who paces the machine.
#[derive(Clone, Copy, Debug, PartialEq, Eq, Structural)]
pub enum RunMode {
    /// The machine runs one cycle for each toggle of the operator button.
    Manual,
    /// The machine runs every cycle while the button count is even.
    Auto,
}

/// True when the mode switch differs between two input words.
pub open spec fn mode_switch_toggled(last_input: u16, input: u16) -> bool {
    (input ^ last_input) & MODE_SWITCH_BIT != 0
}

/// True when the operator button differs between two input words.
pub open spec fn op_button_toggled(last_input: u16, input: u16) -> bool {
    (input ^ last_input) & OP_BUTTON_BIT != 0
}

/// The mode that the mode switch of `input` selects.
pub open spec fn selected_mode(input: u16) -> RunMode {
    if input & MODE_SWITCH_BIT != 0 {
        RunMode::Auto
    } else {
        RunMode::Manual
    }
}

/// The button count after one more toggle; it wraps, which keeps its parity.
pub open spec fn next_count(count: u16) -> u16 {
    if count == u16::MAX {
        0
    } else {
        (count + 1) as u16
    }
}

/// What a [`MachineRunnerFsm`] stands for.
pub struct RunnerModel {
    /// Digital inputs of the cycle before.
    pub last_input: u16,
    /// Toggles of the operator button seen in automatic mode.
    pub op_pressed_count: u16,
    pub mode: RunMode,
    pub feeder1st: Feeder1stModel,
    pub feeder2nd: Feeder2ndModel,
    pub feeder3rd: Feeder3rdModel,
}

impl RunnerModel {
    /// A runner that has just been made: manual mode, every feeder in its
    /// first state.
    pub open spec fn initial(sensor_gated: bool) -> RunnerModel {
        RunnerModel {
            last_input: 0,
            op_pressed_count: 0,
            mode: RunMode::Manual,
            feeder1st: Feeder1stModel::initial(),
            feeder2nd: Feeder2ndModel::initial(),
            feeder3rd: Feeder3rdModel::initial(sensor_gated),
        }
    }

    /// Every feeder is well formed.
    pub open spec fn wf(self) -> bool {
        &&& self.feeder1st.wf()
        &&& self.feeder2nd.wf()
        &&& self.feeder3rd.wf()
    }

    /// The runner after the three feeders have run one cycle on `frame`, in
    /// order, and each of the second and third has been told of the other's
    /// edge.
    pub open spec fn after_run_once(self, frame: Frame) -> RunnerModel {
        let is_manual = self.mode is Manual;
        let d_in = frame.digital_inputs;
        let feeder2nd = self.feeder2nd.step(frame.servo0.tx, d_in, is_manual);
        let feeder3rd = self.feeder3rd.step(frame.servo1.tx, d_in);
        RunnerModel {
            feeder1st: self.feeder1st.step(d_in),
            feeder2nd: if self.feeder3rd.takes_part() {
                feeder2nd.triggered()
            } else {
                feeder2nd
            },
            feeder3rd: if self.feeder2nd.reaches_end(frame.servo0.tx) {
                feeder3rd.triggered()
            } else {
                feeder3rd
            },
            ..self
        }
    }

    /// The frame after the three feeders have run one cycle on it: the
    /// digital outputs are the feeders' words or-ed together, each drive's
    /// command image is the one its feeder holds, and the inputs are as
    /// before.
    pub open spec fn frame_after_run_once(self, frame: Frame) -> Frame {
        let after = self.after_run_once(frame);
        Frame {
            servo0: ServoPdo { rx: after.feeder2nd.fsm.rx_pdo, tx: frame.servo0.tx },
            servo1: ServoPdo { rx: after.feeder3rd.rx_pdo, tx: frame.servo1.tx },
            digital_outputs: after.feeder1st.d_out | after.feeder2nd.fsm.d_out
                | after.feeder3rd.d_out,
            digital_inputs: frame.digital_inputs,
        }
    }

    /// True when `d_out` is the feeders' output words, each masked with its
    /// feeder's own mask, or-ed together, and each feeder's word can be read
    /// back from `d_out` through that mask.
    pub open spec fn composes(self, d_out: u16) -> bool {
        &&& d_out == (FEEDER_1ST_OUT_BIT_MASK & self.feeder1st.d_out) | (FEEDER_2ND_OUT_BIT_MASK
            & self.feeder2nd.fsm.d_out) | (FEEDER_3RD_OUT_BIT_MASK & self.feeder3rd.d_out)
        &&& d_out & FEEDER_1ST_OUT_BIT_MASK == self.feeder1st.d_out
        &&& d_out & FEEDER_2ND_OUT_BIT_MASK == self.feeder2nd.fsm.d_out
        &&& d_out & FEEDER_3RD_OUT_BIT_MASK == self.feeder3rd.d_out
    }

    /// The button count after the cycle on `frame`: in automatic mode a
    /// toggle of the operator button counts, unless the mode switch moved.
    pub open spec fn counted(self, frame: Frame) -> u16 {
        if !mode_switch_toggled(self.last_input, frame.digital_inputs) && self.mode is Auto
            && op_button_toggled(self.last_input, frame.digital_inputs) {
            next_count(self.op_pressed_count)
        } else {
            self.op_pressed_count
        }
    }

    /// Whether the feeders run in the cycle on `frame`.  They rest in the
    /// cycle that moves the mode switch.  Otherwise, in manual mode they run
    /// when the operator button toggles, and in automatic mode while the
    /// button count is even.
    pub open spec fn runs(self, frame: Frame) -> bool {
        &&& !mode_switch_toggled(self.last_input, frame.digital_inputs)
        &&& match self.mode {
            RunMode::Manual => op_button_toggled(self.last_input, frame.digital_inputs),
            RunMode::Auto => self.counted(frame) % 2 == 0,
        }
    }

    /// The runner after the cycle on `frame`.
    pub open spec fn step(self, frame: Frame) -> RunnerModel {
        let counted = RunnerModel { op_pressed_count: self.counted(frame), ..self };
        let ran = if self.runs(frame) {
            counted.after_run_once(frame)
        } else {
            counted
        };
        RunnerModel {
            mode: if mode_switch_toggled(self.last_input, frame.digital_inputs) {
                selected_mode(frame.digital_inputs)
            } else {
                self.mode
            },
            last_input: frame.digital_inputs,
            ..ran
        }
    }

    /// The frame after the cycle on it: untouched unless the feeders run.
    pub open spec fn frame_after(self, frame: Frame) -> Frame {
        if self.runs(frame) {
            self.frame_after_run_once(frame)
        } else {
            frame
        }
    }
}

/// The three feeders own disjoint output bits.
pub proof fn lemma_feeder_masks_disjoint()
    ensures
        FEEDER_1ST_OUT_BIT_MASK & FEEDER_2ND_OUT_BIT_MASK == 0,
        FEEDER_1ST_OUT_BIT_MASK & FEEDER_3RD_OUT_BIT_MASK == 0,
        FEEDER_2ND_OUT_BIT_MASK & FEEDER_3RD_OUT_BIT_MASK == 0,
{
    assert(0x8000u16 & 0x4007u16 == 0 && 0x8000u16 & 0x0018u16 == 0 && 0x4007u16 & 0x0018u16
        == 0) by (bit_vector);
}

/// Or-ing three words that each lie inside their feeder's mask loses
/// nothing: the result is the masked words or-ed together, and masking it
/// with a feeder's mask gives back that feeder's word.
pub proof fn lemma_outputs_compose(c1: u16, c2: u16, c3: u16)
    requires
        within_mask(c1, FEEDER_1ST_OUT_BIT_MASK),
        within_mask(c2, FEEDER_2ND_OUT_BIT_MASK),
        within_mask(c3, FEEDER_3RD_OUT_BIT_MASK),
    ensures
        c1 | c2 | c3 == (FEEDER_1ST_OUT_BIT_MASK & c1) | (FEEDER_2ND_OUT_BIT_MASK & c2) | (
        FEEDER_3RD_OUT_BIT_MASK & c3),
        (c1 | c2 | c3) & FEEDER_1ST_OUT_BIT_MASK == c1,
        (c1 | c2 | c3) & FEEDER_2ND_OUT_BIT_MASK == c2,
        (c1 | c2 | c3) & FEEDER_3RD_OUT_BIT_MASK == c3,
{
    assert(c1 & !0x8000u16 == 0 && c2 & !0x4007u16 == 0 && c3 & !0x0018u16 == 0 ==> c1 | c2 | c3
        == (0x8000u16 & c1) | (0x4007u16 & c2) | (0x0018u16 & c3) && (c1 | c2 | c3) & 0x8000u16
        == c1 && (c1 | c2 | c3) & 0x4007u16 == c2 && (c1 | c2 | c3) & 0x0018u16 == c3)
        by (bit_vector);
}

/// Whenever the feeders run, the digital output word written into the frame
/// is the feeders' words, each masked with its own mask, or-ed together, and
/// each feeder's word can be read back from it.
pub proof fn lemma_run_once_composes_outputs(m: RunnerModel, frame: Frame)
    requires
        m.wf(),
    ensures
        m.after_run_once(frame).wf(),
        m.after_run_once(frame).composes(m.frame_after_run_once(frame).digital_outputs),
{
    let is_manual = m.mode is Manual;
    let d_in = frame.digital_inputs;
    lemma_feeder1st_step_wf(m.feeder1st, d_in);
    lemma_feeder1st_within_mask(m.feeder1st.step(d_in));
    lemma_feeder2nd_step_wf(m.feeder2nd, frame.servo0.tx, d_in, is_manual);
    lemma_feeder2nd_step_wf(
        m.feeder2nd.step(frame.servo0.tx, d_in, is_manual),
        frame.servo0.tx,
        d_in,
        is_manual,
    );
    lemma_feeder3rd_step_wf(m.feeder3rd, frame.servo1.tx, d_in);
    lemma_feeder3rd_step_wf(m.feeder3rd.step(frame.servo1.tx, d_in), frame.servo1.tx, d_in);
    let after = m.after_run_once(frame);
    lemma_outputs_compose(after.feeder1st.d_out, after.feeder2nd.fsm.d_out, after.feeder3rd.d_out);
}

/// The command image written for a drive is determined by the state of its
/// feeder and by that drive's own feedback: neither the other drive's
/// feedback, nor the digital inputs, nor the images already in the frame
/// have a part in it.
pub proof fn lemma_no_cross_slot_coupling(m: RunnerModel, frame: Frame)
    ensures
        m.frame_after_run_once(frame).servo0.rx == m.feeder2nd.fsm.command(frame.servo0.tx),
        m.frame_after_run_once(frame).servo1.rx == m.feeder3rd.command(frame.servo1.tx),
{
    let d_in = frame.digital_inputs;
    lemma_feeder2nd_command(m.feeder2nd, frame.servo0.tx, d_in, m.mode is Manual);
    lemma_feeder3rd_command(m.feeder3rd, frame.servo1.tx, d_in);
    lemma_feeder3rd_command(m.feeder3rd.step(frame.servo1.tx, d_in), frame.servo1.tx, d_in);
}

/// One cycle keeps every feeder well formed.
pub proof fn lemma_runner_step_wf(m: RunnerModel, frame: Frame)
    requires
        m.wf(),
    ensures
        m.step(frame).wf(),
        m.runs(frame) ==> m.step(frame).composes(m.frame_after(frame).digital_outputs),
{
    let counted = RunnerModel { op_pressed_count: m.counted(frame), ..m };
    lemma_run_once_composes_outputs(counted, frame);
}

impl RunnerModel {
    /// True while the third stage owes the second an answer: it has been
    /// told of a part and has not yet reported it taken.
    pub open spec fn part_requested(self) -> bool {
        ||| self.feeder3rd.next_trigger
        ||| self.feeder3rd.state is StartMove04
        ||| self.feeder3rd.state is StartMove04Clip
        ||| self.feeder3rd.state is StartMove01
        ||| self.feeder3rd.state is Pos1Holding
        ||| self.feeder3rd.state is Pos1ToTakePart
    }

    /// True while the shuttle of the second stage has the report that the
    /// part was taken: the report is pending, or the shuttle is already on
    /// its way back.
    pub open spec fn part_released(self) -> bool {
        self.feeder2nd.fsm.next_trigger || self.feeder2nd.fsm.state is MoveToStart
    }

    /// True while the shuttle waits at the end position or returns from it.
    pub open spec fn shuttle_waits_or_returns(self) -> bool {
        self.feeder2nd.fsm.state is EndPending || self.feeder2nd.fsm.state is MoveToStart
    }

    /// The interlock between the second and the third stage.  While the
    /// third stage owes an answer, the shuttle waits at the end position with
    /// no report pending; a report is pending only while the shuttle waits
    /// there; and the third stage is not told of a part while it handles one.
    pub open spec fn interlocked(self) -> bool {
        &&& self.part_requested() ==> self.feeder2nd.fsm.state is EndPending
            && !self.feeder2nd.fsm.next_trigger
        &&& self.feeder2nd.fsm.next_trigger ==> self.feeder2nd.fsm.state is EndPending
        &&& self.feeder3rd.next_trigger ==> !(self.feeder3rd.state is StartMove04
            || self.feeder3rd.state is StartMove04Clip || self.feeder3rd.state is StartMove01
            || self.feeder3rd.state is Pos1Holding || self.feeder3rd.state is Pos1ToTakePart)
    }

    /// Whether the cycle on `frame` is the one in which the third stage
    /// reports the part taken.
    pub open spec fn part_taken_in(self, frame: Frame) -> bool {
        self.runs(frame) && self.feeder3rd.takes_part()
    }

    /// The runner after the cycles on `frames`, in order.
    pub open spec fn run(self, frames: Seq<Frame>) -> RunnerModel
        decreases frames.len(),
    {
        if frames.len() == 0 {
            self
        } else {
            self.run(frames.drop_last()).step(frames.last())
        }
    }
}

/// The second stage is told that the part was taken in exactly the runs in
/// which the third stage reports it, and the third stage is told of a part
/// in exactly the runs in which the shuttle reaches the end position.  So a
/// shuttle that waits in `EndPending` with no report pending has the report
/// after a run if and only if the third stage took the part in that run.
pub proof fn lemma_run_once_passes_the_edges(m: RunnerModel, frame: Frame)
    ensures
        ({
            let is_manual = m.mode is Manual;
            let d_in = frame.digital_inputs;
            let second = m.feeder2nd.step(frame.servo0.tx, d_in, is_manual);
            let third = m.feeder3rd.step(frame.servo1.tx, d_in);
            let after = m.after_run_once(frame);
            &&& after.feeder2nd == if m.feeder3rd.takes_part() {
                second.triggered()
            } else {
                second
            }
            &&& after.feeder3rd == if m.feeder2nd.reaches_end(frame.servo0.tx) {
                third.triggered()
            } else {
                third
            }
            &&& after.feeder2nd.fsm.next_trigger == (m.feeder3rd.takes_part()
                || second.fsm.next_trigger)
            &&& after.feeder3rd.next_trigger == (m.feeder2nd.reaches_end(frame.servo0.tx)
                || third.next_trigger)
        }),
        m.feeder2nd.fsm.state is EndPending && !m.feeder2nd.fsm.next_trigger ==> m.after_run_once(
            frame,
        ).feeder2nd.fsm.state is EndPending && m.after_run_once(frame).feeder2nd.fsm.next_trigger
            == m.feeder3rd.takes_part(),
{
}

/// A runner that has just been made is interlocked, and the shuttle has no
/// report that a part was taken.
pub proof fn lemma_interlocked_initially(sensor_gated: bool)
    ensures
        RunnerModel::initial(sensor_gated).interlocked(),
        !RunnerModel::initial(sensor_gated).part_released(),
        RunnerModel::initial(sensor_gated).wf(),
{
    crate::feeder::feeder2nd::lemma_feeder2nd_bits_within_mask();
    crate::feeder::feeder3rd::lemma_feeder3rd_bits_within_mask();
}

/// One cycle keeps the interlock.  The shuttle gets the report that the part
/// was taken only in the cycle in which the third stage takes it, and at
/// that time it waits at the end position.
pub proof fn lemma_interlocked_step(m: RunnerModel, frame: Frame)
    requires
        m.interlocked(),
    ensures
        m.step(frame).interlocked(),
        m.step(frame).part_released() && !m.part_released() ==> m.part_taken_in(frame)
            && m.feeder2nd.fsm.state is EndPending,
        m.step(frame).part_released() ==> m.step(frame).shuttle_waits_or_returns(),
        m.step(frame).feeder2nd.fsm.state is StartPending ==> m.feeder2nd.fsm.state is StartPending
            || m.feeder2nd.fsm.state is Init || m.feeder2nd.fsm.state is MoveToStart,
{
}

/// The cycles `frames` up to, and without, cycle `k` lead to the state in
/// which cycle `k` begins.
pub proof fn lemma_run_unfolds(m: RunnerModel, frames: Seq<Frame>, k: int)
    requires
        0 <= k < frames.len(),
    ensures
        m.run(frames.take(k + 1)) == m.run(frames.take(k)).step(frames[k]),
{
    assert(frames.take(k + 1).drop_last() =~= frames.take(k));
}

/// Every cycle of a run keeps the interlock.
pub proof fn lemma_interlocked_run(m: RunnerModel, frames: Seq<Frame>)
    requires
        m.interlocked(),
    ensures
        m.run(frames).interlocked(),
    decreases frames.len(),
{
    if frames.len() > 0 {
        lemma_interlocked_run(m, frames.drop_last());
        lemma_interlocked_step(m.run(frames.drop_last()), frames.last());
    }
}

/// The shuttle of the second stage returns only after the third stage has
/// taken the part.  Take any run of an interlocked runner that starts with no
/// report pending and the shuttle not on its way back.  If cycle `j` begins
/// with the report pending or the shuttle on its way back to `StartPending`,
/// then in some earlier cycle `i` the third stage reported the part taken,
/// and from then on up to cycle `j` the shuttle only waited at the end
/// position or returned: it was never in `StartPending` in between.
pub proof fn lemma_part_taken_before_shuttle_returns(
    m: RunnerModel,
    frames: Seq<Frame>,
    j: int,
) -> (i: int)
    requires
        m.interlocked(),
        !m.part_released(),
        0 <= j <= frames.len(),
        m.run(frames.take(j)).part_released(),
    ensures
        0 <= i < j,
        m.run(frames.take(i)).part_taken_in(frames[i]),
        m.run(frames.take(i)).feeder2nd.fsm.state is EndPending,
        forall|k: int| i < k <= j ==> (#[trigger] m.run(frames.take(k))).shuttle_waits_or_returns(),
    decreases j,
{
    assert(j > 0) by {
        if j == 0 {
            assert(m.run(frames.take(0)) == m);
        }
    }
    let before = m.run(frames.take(j - 1));
    lemma_run_unfolds(m, frames, j - 1);
    lemma_interlocked_run(m, frames.take(j - 1));
    lemma_interlocked_step(before, frames[j - 1]);
    if before.part_released() {
        let i = lemma_part_taken_before_shuttle_returns(m, frames, j - 1);
        assert forall|k: int| i < k <= j implies (#[trigger] m.run(
            frames.take(k),
        )).shuttle_waits_or_returns() by {
            if k == j {
            }
        }
        i
    } else {
        j - 1
    }
}

/// In a run of a runner that has just been made, whenever the second stage
/// comes back from `MoveToStart` to `StartPending`, the third stage has
/// reported the part taken in an earlier cycle, while the shuttle waited at
/// the end position, and the second stage has not been in `StartPending`
/// between that report and its return.
pub proof fn lemma_no_race_on_start_pending(sensor_gated: bool, frames: Seq<Frame>, j: int) -> (i:
    int)
    requires
        0 <= j < frames.len(),
        RunnerModel::initial(sensor_gated).run(frames.take(j)).feeder2nd.fsm.state is MoveToStart,
        RunnerModel::initial(sensor_gated).run(frames.take(j + 1)).feeder2nd.fsm.state
            is StartPending,
    ensures
        0 <= i < j,
        RunnerModel::initial(sensor_gated).run(frames.take(i)).part_taken_in(frames[i]),
        RunnerModel::initial(sensor_gated).run(frames.take(i)).feeder2nd.fsm.state is EndPending,
        forall|k: int|
            i < k <= j ==> !((#[trigger] RunnerModel::initial(sensor_gated).run(
                frames.take(k),
            )).feeder2nd.fsm.state is StartPending),
{
    let m = RunnerModel::initial(sensor_gated);
    lemma_interlocked_initially(sensor_gated);
    let i = lemma_part_taken_before_shuttle_returns(m, frames, j);
    assert forall|k: int| i < k <= j implies !((#[trigger] m.run(
        frames.take(k),
    )).feeder2nd.fsm.state is StartPending) by {
        assert(m.run(frames.take(k)).shuttle_waits_or_returns());
    }
    i
}

/// The run-phase arbiter: keeps the mode, counts the operator button and
/// runs the three feeders.
pub struct MachineRunnerFsm {
    pub last_input: u16,
    pub op_pressed_count: u16,
    state: RunMode,
    feeder1st: Feeder1st,
    feeder2nd: Feeder2nd,
    feeder3rd: Feeder3rd,
}

impl View for MachineRunnerFsm {
    type V = RunnerModel;

    closed spec fn view(&self) -> RunnerModel {
        RunnerModel {
            last_input: self.last_input,
            op_pressed_count: self.op_pressed_count,
            mode: self.state,
            feeder1st: self.feeder1st@,
            feeder2nd: self.feeder2nd@,
            feeder3rd: self.feeder3rd@,
        }
    }
}

impl MachineRunnerFsm {
    /// A runner whose third feeder waits for the part sensor before it
    /// picks.
    pub fn new() -> (m: Self)
        ensures
            m@ == RunnerModel::initial(true),
        no_unwind
    {
        Self::with_sensor_gate(true)
    }

    /// A runner whose third feeder waits for the part sensor before it picks
    /// if `sensor_gated`, and picks at once if not.
    pub fn with_sensor_gate(sensor_gated: bool) -> (m: Self)
        ensures
            m@ == RunnerModel::initial(sensor_gated),
        no_unwind
    {
        Self {
            last_input: 0,
            op_pressed_count: 0,
            state: RunMode::Manual,
            feeder1st: Feeder1st::new(),
            feeder2nd: Feeder2nd::new(),
            feeder3rd: Feeder3rd::with_sensor_gate(sensor_gated),
        }
    }

    /// Runs one cycle on the frame `data`: follows the mode switch, or else
    /// runs the handler of the current mode.
    pub fn react(&mut self, data: &mut DomainData)
        ensures
            final(self)@ == old(self)@.step(old(data)@),
            final(data)@ == old(self)@.frame_after(old(data)@),
            inputs_untouched(old(data).bytes(), final(data).bytes()),
            old(self)@.runs(old(data)@) ==> final(self)@.composes(final(data)@.digital_outputs),
        no_unwind
    {
        // check if the input is dirty
        let input = data.digital_inputs();
        let last_input = self.last_input;

        if (input ^ last_input) & MODE_SWITCH_BIT != 0 {
            if input & MODE_SWITCH_BIT != 0 {
                self.state = RunMode::Auto;
            } else {
                self.state = RunMode::Manual;
            }
        } else {
            match self.state {
                RunMode::Auto => self.state_auto(data),
                RunMode::Manual => self.state_manual(data),
            }
        }

        self.last_input = input;
    }

    fn state_auto(&mut self, data: &mut DomainData)
        requires
            old(self)@.mode is Auto,
            !mode_switch_toggled(old(self)@.last_input, old(data)@.digital_inputs),
        ensures
            final(self)@ == old(self)@.step(old(data)@),
            final(data)@ == old(self)@.frame_after(old(data)@),
            inputs_untouched(old(data).bytes(), final(data).bytes()),
            old(self)@.runs(old(data)@) ==> final(self)@.composes(final(data)@.digital_outputs),
        no_unwind
    {
        // check if the input is dirty
        let input = data.digital_inputs();
        let last_input = self.last_input;

        if (input ^ last_input) & OP_BUTTON_BIT != 0 {
            self.op_pressed_count = if self.op_pressed_count == u16::MAX {
                0
            } else {
                self.op_pressed_count + 1
            };
        }
        if self.op_pressed_count % 2 == 0 {
            self.run_once(data);
        }
        self.last_input = input;
    }

    fn state_manual(&mut self, data: &mut DomainData)
        requires
            old(self)@.mode is Manual,
            !mode_switch_toggled(old(self)@.last_input, old(data)@.digital_inputs),
        ensures
            final(self)@ == old(self)@.step(old(data)@),
            final(data)@ == old(self)@.frame_after(old(data)@),
            inputs_untouched(old(data).bytes(), final(data).bytes()),
            old(self)@.runs(old(data)@) ==> final(self)@.composes(final(data)@.digital_outputs),
        no_unwind
    {
        // check if the input is dirty
        let input = data.digital_inputs();
        let last_input = self.last_input;

        if (input ^ last_input) & OP_BUTTON_BIT != 0 {
            // execute machine
            self.run_once(data);
        }
        self.last_input = input;
    }

    /// Runs the three feeders for one cycle on the frame `data`, in order,
    /// tells each of the second and third of the other's edge, and writes
    /// their outputs into the frame: the digital output word is the three
    /// feeders' words or-ed together, and each drive gets the command image
    /// of its feeder.
    pub fn run_once(&mut self, data: &mut DomainData)
        ensures
            final(self)@ == old(self)@.after_run_once(old(data)@),
            final(data)@ == old(self)@.frame_after_run_once(old(data)@),
            inputs_untouched(old(data).bytes(), final(data).bytes()),
            old(self)@.wf(),
            final(self)@.wf(),
            final(self)@.composes(final(data)@.digital_outputs),
            final(self)@.feeder2nd.fsm.next_trigger == (old(self)@.feeder3rd.takes_part() || old(
                self,
            )@.feeder2nd.step(
                old(data)@.servo0.tx,
                old(data)@.digital_inputs,
                old(self)@.mode is Manual,
            ).fsm.next_trigger),
            final(self)@.feeder3rd.next_trigger == (old(self)@.feeder2nd.reaches_end(
                old(data)@.servo0.tx,
            ) || old(self)@.feeder3rd.step(
                old(data)@.servo1.tx,
                old(data)@.digital_inputs,
            ).next_trigger),
        no_unwind
    {
        let is_manual = match self.state {
            RunMode::Manual => true,
            RunMode::Auto => false,
        };
        let d_in = data.digital_inputs();
        let d_out_1st = self.feeder1st.update(d_in);

        let (d_out_2nd, servo0_rx_pdo, reached_end) = self.feeder2nd.update(
            data.servo_tx(0),
            d_in,
            is_manual,
        );
        let (d_out_3rd, servo1_rx_pdo, took_part) = self.feeder3rd.update(data.servo_tx(1), d_in);

        if reached_end {
            self.feeder3rd.trigger_next();
        }
        if took_part {
            self.feeder2nd.trigger_next();
        }
        let d_out = d_out_1st | d_out_2nd | d_out_3rd;
        proof {
            lemma_outputs_compose(d_out_1st, d_out_2nd, d_out_3rd);
        }

        data.set_digital_outputs(d_out);
        data.set_servo_rx(0, servo0_rx_pdo);
        data.set_servo_rx(1, servo1_rx_pdo);
    }

    /// Whether the feeders run in the cycle on the frame `data`.
    pub fn runs(&self, data: &DomainData) -> (runs: bool)
        ensures
            runs == self@.runs(data@),
        no_unwind
    {
        let input = data.digital_inputs();
        if (input ^ self.last_input) & MODE_SWITCH_BIT != 0 {
            return false;
        }
        let toggled = (input ^ self.last_input) & OP_BUTTON_BIT != 0;
        match self.state {
            RunMode::Manual => toggled,
            RunMode::Auto => {
                // the count wraps from odd to even, so every toggle flips its parity
                (self.op_pressed_count % 2 == 0) != toggled
            },
        }
    }

    /// The first feeder stage.
    pub fn feeder1st(&self) -> (f: &Feeder1st)
        ensures
            f@ == self@.feeder1st,
        no_unwind
    {
        &self.feeder1st
    }

    /// The second feeder stage.
    pub fn feeder2nd(&self) -> (f: &Feeder2nd)
        ensures
            f@ == self@.feeder2nd,
        no_unwind
    {
        &self.feeder2nd
    }

    /// The third feeder stage.
    pub fn feeder3rd(&self) -> (f: &Feeder3rd)
        ensures
            f@ == self@.feeder3rd,
        no_unwind
    {
        &self.feeder3rd
    }

    /// The current mode.
    pub fn mode(&self) -> (mode: RunMode)
        ensures
            mode == self@.mode,
        no_unwind
    {
        self.state
    }
}

/// The phase of the outer state machine.
#[derive(Clone, Copy, Debug, PartialEq, Eq, Structural)]
pub enum TopState {
    /// The drives are being powered up.
    Init,
    /// The machine runs.
    Run,
}

/// What a [`TopLevel`] stands for.
pub struct TopLevelModel {
    pub machine: RunnerModel,
    pub state: TopState,
    pub initializer0: InitState,
    pub initializer1: InitState,
}

impl TopLevelModel {
    /// A controller that has just been made.
    pub open spec fn initial(sensor_gated: bool) -> TopLevelModel {
        TopLevelModel {
            machine: RunnerModel::initial(sensor_gated),
            state: TopState::Init,
            initializer0: InitState::Start,
            initializer1: InitState::Start,
        }
    }

    /// The controller after the cycle on `frame`.  In `Init` both drives'
    /// power-up sequences advance, and the machine starts to run once both
    /// report done in the same cycle.  In `Run` the runner has the cycle.
    pub open spec fn step(self, frame: Frame) -> TopLevelModel {
        match self.state {
            TopState::Init => TopLevelModel {
                initializer0: self.initializer0.next(frame.servo0.tx.status_word),
                initializer1: self.initializer1.next(frame.servo1.tx.status_word),
                state: if self.initializer0.done() && self.initializer1.done() {
                    TopState::Run
                } else {
                    TopState::Init
                },
                ..self
            },
            TopState::Run => TopLevelModel { machine: self.machine.step(frame), ..self },
        }
    }

    /// Whether the cycle on `frame` writes the digital outputs: the machine
    /// runs and its feeders have the cycle.
    pub open spec fn writes_outputs(self, frame: Frame) -> bool {
        self.state is Run && self.machine.runs(frame)
    }

    /// The frame after the cycle on it.  In `Init` each drive gets the
    /// command of its power-up sequence and the digital outputs stay as they
    /// are.  In `Run` the frame is as the runner leaves it.
    pub open spec fn frame_after(self, frame: Frame) -> Frame {
        match self.state {
            TopState::Init => Frame {
                servo0: ServoPdo { rx: self.initializer0.command(), tx: frame.servo0.tx },
                servo1: ServoPdo { rx: self.initializer1.command(), tx: frame.servo1.tx },
                ..frame
            },
            TopState::Run => self.machine.frame_after(frame),
        }
    }
}

/// No cycle changes what the transport put into the frame: both feedback
/// images and the digital inputs come out as they went in.  The digital
/// outputs change only in a cycle in which the feeders run.
pub proof fn lemma_frame_inputs_kept(m: TopLevelModel, frame: Frame)
    ensures
        m.frame_after(frame).servo0.tx == frame.servo0.tx,
        m.frame_after(frame).servo1.tx == frame.servo1.tx,
        m.frame_after(frame).digital_inputs == frame.digital_inputs,
        !m.writes_outputs(frame) ==> m.frame_after(frame).digital_outputs
            == frame.digital_outputs,
{
}

/// Once the machine runs, it runs in every later cycle.
pub proof fn lemma_run_is_final(m: TopLevelModel, frame: Frame)
    requires
        m.state is Run,
    ensures
        m.step(frame).state is Run,
{
}

/// The outer state machine of the controller: powers both drives up, then
/// hands every cycle to the runner.
pub struct TopLevel {
    pub machine: MachineRunnerFsm,
    state: TopState,
    servo_initializers: [ServoInitializer; 2],
}

impl View for TopLevel {
    type V = TopLevelModel;

    closed spec fn view(&self) -> TopLevelModel {
        TopLevelModel {
            machine: self.machine@,
            state: self.state,
            initializer0: self.servo_initializers[0]@,
            initializer1: self.servo_initializers[1]@,
        }
    }
}

impl TopLevel {
    /// A controller whose third feeder waits for the part sensor before it
    /// picks.
    pub fn new() -> (top: Self)
        ensures
            top@ == TopLevelModel::initial(true),
        no_unwind
    {
        Self::with_sensor_gate(true)
    }

    /// A controller whose third feeder waits for the part sensor before it
    /// picks if `sensor_gated`, and picks at once if not.
    pub fn with_sensor_gate(sensor_gated: bool) -> (top: Self)
        ensures
            top@ == TopLevelModel::initial(sensor_gated),
        no_unwind
    {
        Self {
            machine: MachineRunnerFsm::with_sensor_gate(sensor_gated),
            state: TopState::Init,
            servo_initializers: [ServoInitializer::new(), ServoInitializer::new()],
        }
    }

    /// Runs one cycle on the frame `data`.  Reads the feedback images and
    /// the digital inputs and writes the command images and, once the
    /// machine runs, the digital outputs; every input byte is left as it is.
    /// Never panics.
    pub fn react(&mut self, data: &mut DomainData)
        ensures
            final(self)@ == old(self)@.step(old(data)@),
            final(data)@ == old(self)@.frame_after(old(data)@),
            inputs_untouched(old(data).bytes(), final(data).bytes()),
            old(self)@.writes_outputs(old(data)@) ==> final(self)@.machine.composes(
                final(data)@.digital_outputs,
            ),
        no_unwind
    {
        match self.state {
            TopState::Init => self.state_init(data),
            TopState::Run => self.state_run(data),
        }
    }

    fn state_init(&mut self, data: &mut DomainData)
        requires
            old(self)@.state is Init,
        ensures
            final(self)@ == old(self)@.step(old(data)@),
            final(data)@ == old(self)@.frame_after(old(data)@),
            inputs_untouched(old(data).bytes(), final(data).bytes()),
        no_unwind
    {
        let done0 = Self::init_servo(&mut self.servo_initializers[0], data, 0);
        let done1 = Self::init_servo(&mut self.servo_initializers[1], data, 1);
        if done0 && done1 {
            self.state = TopState::Run;
        }
    }

    /// Runs one power-up cycle of the drive in slot `i`.
    fn init_servo(initializer: &mut ServoInitializer, data: &mut DomainData, i: usize) -> (done:
        bool)
        requires
            i < 2,
        ensures
            final(initializer)@ == old(initializer)@.next(
                old(data)@.servo(i as int).tx.status_word,
            ),
            final(data)@ == old(data)@.with_servo_rx(i as int, old(initializer)@.command()),
            inputs_untouched(old(data).bytes(), final(data).bytes()),
            done == old(initializer)@.done(),
        no_unwind
    {
        let mut pdo = ServoPdo { rx: data.servo_rx(i), tx: data.servo_tx(i) };
        let done = initializer.update(&mut pdo);
        data.set_servo_rx(i, pdo.rx);
        done
    }

    // a homing state may follow here one day

    fn state_run(&mut self, data: &mut DomainData)
        requires
            old(self)@.state is Run,
        ensures
            final(self)@ == old(self)@.step(old(data)@),
            final(data)@ == old(self)@.frame_after(old(data)@),
            inputs_untouched(old(data).bytes(), final(data).bytes()),
            old(self)@.writes_outputs(old(data)@) ==> final(self)@.machine.composes(
                final(data)@.digital_outputs,
            ),
        no_unwind
    {
        self.machine.react(data);
    }

    /// Whether the cycle on the frame `data` writes the digital outputs,
    /// that is whether the machine runs and its feeders have the cycle.
    pub fn writes_outputs(&self, data: &DomainData) -> (writes: bool)
        ensures
            writes == self@.writes_outputs(data@),
        no_unwind
    {
        match self.state {
            TopState::Init => false,
            TopState::Run => self.machine.runs(data),
        }
    }

    /// The current phase.
    pub fn state(&self) -> (state: TopState)
        ensures
            state == self@.state,
        no_unwind
    {
        self.state
    }
}

impl Default for TopLevel {
    fn default() -> (top: Self)
        ensures
            top@ == TopLevelModel::initial(true),
    {
        Self::new()
    }
}

impl Default for MachineRunnerFsm {
    fn default() -> (m: Self)
        ensures
            m@ == RunnerModel::initial(true),
    {
        Self::new()
    }
}

} // verus!
