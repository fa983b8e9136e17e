use ctrl_804::feeder::feeder1st::{Feeder1stState, FEEDER_1ST_OUT_BIT_MASK};
use ctrl_804::feeder::feeder2nd::{Feeder2ndState, FEEDER_2ND_OUT_BIT_MASK};
use ctrl_804::feeder::feeder3rd::{Feeder3rdState, FEEDER_3RD_OUT_BIT_MASK};
use ctrl_804::servo::servo_pdo::{ServoRxPdo, ServoTxPdo};
use ctrl_804::top_level::top_level::{
    DomainData, MachineRunnerFsm, RunMode, TopLevel, TopState, DOMAIN_SIZE,
};

const MODE_AUTO: u16 = 0x8000;
const OP_BUTTON: u16 = 0x4000;

fn frame(d_in: u16, tx0: ServoTxPdo, tx1: ServoTxPdo) -> DomainData {
    let mut data = DomainData::from_bytes([0; DOMAIN_SIZE]);
    data.set_digital_inputs(d_in);
    data.set_servo_tx(0, tx0);
    data.set_servo_tx(1, tx1);
    data
}

fn still() -> ServoTxPdo {
    ServoTxPdo { status_word: 0x0037, position_actual_value: 0 }
}

/// The command image of the power-up sequence.
fn idle(control_word: u16) -> ServoRxPdo {
    ServoRxPdo {
        control_word,
        target_position: 0,
        profile_velocity: 0,
        profile_acceleration: 0,
        profile_deceleration: 0,
        mode_of_operation: 1,
    }
}

/// The command image of a mover that holds its drive at `position`.
fn hold(position: i32) -> ServoRxPdo {
    ServoRxPdo { control_word: 0x000F, target_position: position, ..idle(0) }
}

/// One cycle with a transport that keeps the frame between cycles and drives
/// that follow every command at once.
fn cycle(runner: &mut MachineRunnerFsm, data: &mut DomainData, d_in: u16) {
    data.set_digital_inputs(d_in);
    for slot in 0..2 {
        let position_actual_value = data.servo_rx(slot).target_position;
        data.set_servo_tx(slot, ServoTxPdo { status_word: 0x0237, position_actual_value });
    }
    runner.react(data);
}

fn input_bytes(data: &DomainData) -> Vec<u8> {
    let bytes = data.to_bytes();
    [&bytes[19..25], &bytes[44..50], &bytes[52..54]].concat()
}

#[test]
fn top_level_powers_both_drives_up_before_it_runs() {
    let mut top = TopLevel::new();
    assert_eq!(top.state(), TopState::Init);
    let enabled = ServoTxPdo { status_word: 0x0237, position_actual_value: 9 };
    let control_words = [0x0000, 0x0080, 0x0006, 0x0007, 0x000F, 0x000F];
    for control_word in control_words {
        assert_eq!(top.state(), TopState::Init);
        let mut data = frame(OP_BUTTON, enabled, enabled);
        data.set_digital_outputs(0x1234);
        top.react(&mut data);
        // every cycle of the power-up writes mode 1 and no motion profile
        assert_eq!(data.servo_rx(0), idle(control_word));
        assert_eq!(data.servo_rx(1), idle(control_word));
        // the digital outputs are not written before the machine runs
        assert_eq!(data.digital_outputs(), 0x1234);
        assert_eq!(data.servo_tx(0), enabled);
        assert_eq!(data.servo_tx(1), enabled);
        assert_eq!(data.digital_inputs(), OP_BUTTON);
    }
    assert_eq!(top.state(), TopState::Run);
    // the runner has not seen a cycle yet
    assert_eq!(top.machine.last_input, 0);

    let mut data = frame(OP_BUTTON, enabled, enabled);
    top.react(&mut data);
    assert_eq!(top.state(), TopState::Run);
    assert_eq!(top.machine.last_input, OP_BUTTON);
    assert_eq!(data.digital_outputs(), 0xC000);
}

#[test]
fn top_level_waits_for_the_slower_drive() {
    let mut top = TopLevel::new();
    let enabled = ServoTxPdo { status_word: 0x0037, position_actual_value: 0 };
    let faulty = ServoTxPdo { status_word: 0x0008, position_actual_value: 0 };
    for _ in 0..20 {
        let mut data = frame(0, enabled, faulty);
        top.react(&mut data);
        assert_eq!(top.state(), TopState::Init);
    }
    let mut data = frame(0, enabled, faulty);
    top.react(&mut data);
    assert_eq!(data.servo_rx(0), idle(0x000F));
    assert_eq!(data.servo_rx(1), idle(0x0080));
    for _ in 0..5 {
        assert_eq!(top.state(), TopState::Init);
        top.react(&mut frame(0, enabled, enabled));
    }
    assert_eq!(top.state(), TopState::Run);
    // there is no way back
    for _ in 0..5 {
        top.react(&mut frame(0, faulty, faulty));
        assert_eq!(top.state(), TopState::Run);
    }
}

#[test]
fn react_leaves_every_input_byte_as_it_is() {
    let mut top = TopLevel::with_sensor_gate(false);
    let mut seed: u32 = 12345;
    for n in 0..5000_u32 {
        let mut bytes = [0_u8; DOMAIN_SIZE];
        for b in bytes.iter_mut() {
            seed = seed.wrapping_mul(1_664_525).wrapping_add(1_013_904_223);
            *b = (seed >> 24) as u8;
        }
        if n < 6 {
            // let both drives through the power-up
            bytes[19] = 0x37;
            bytes[44] = 0x37;
        }
        let mut data = DomainData::from_bytes(bytes);
        let before = input_bytes(&data);
        top.react(&mut data);
        assert_eq!(input_bytes(&data), before);
    }
    assert_eq!(top.state(), TopState::Run);
}

#[test]
fn runner_starts_in_manual_mode() {
    let runner = MachineRunnerFsm::new();
    assert_eq!(runner.mode(), RunMode::Manual);
    assert_eq!(runner.last_input, 0);
    assert_eq!(runner.op_pressed_count, 0);
    assert_eq!(runner.feeder1st().state(), Feeder1stState::Stop);
    assert_eq!(runner.feeder2nd().state(), Feeder2ndState::Init);
    assert_eq!(runner.feeder3rd().state(), Feeder3rdState::Init);
}

/// One cycle on a fresh frame with the digital inputs `d_in`.  Tells whether
/// the feeders ran: a run writes the output word, and no run can write 0x1234,
/// which has bits that no feeder owns.
fn ran(runner: &mut MachineRunnerFsm, d_in: u16) -> bool {
    let mut data = frame(d_in, still(), still());
    data.set_digital_outputs(0x1234);
    let untouched = data.to_bytes();
    let foretold = runner.runs(&data);
    runner.react(&mut data);
    let written = data.digital_outputs() != 0x1234;
    assert_eq!(foretold, written);
    if !written {
        assert_eq!(data.to_bytes(), untouched);
    }
    written
}

#[test]
fn op_button_in_manual_runs_the_machine_once_per_edge() {
    let mut runner = MachineRunnerFsm::new();

    // no edge: nothing runs, nothing is written
    assert!(!ran(&mut runner, 0));

    // rising edge: one run
    let mut data = frame(OP_BUTTON, still(), still());
    runner.react(&mut data);
    assert_eq!(data.digital_outputs(), 0xC000);
    assert_eq!(data.servo_rx(0), hold(0));
    assert_eq!(data.servo_rx(1), hold(0));
    assert_eq!(runner.feeder1st().state(), Feeder1stState::Run);

    // button held: no further run
    for _ in 0..3 {
        assert!(!ran(&mut runner, OP_BUTTON));
    }

    // second edge: one more run, and again none while nothing moves
    assert!(ran(&mut runner, 0));
    assert!(!ran(&mut runner, 0));
    assert!(ran(&mut runner, OP_BUTTON));
    assert!(!ran(&mut runner, OP_BUTTON));

    assert_eq!(runner.op_pressed_count, 0);
    assert_eq!(runner.mode(), RunMode::Manual);
}

#[test]
fn mode_switch_changes_the_mode_and_rests_one_cycle() {
    let mut runner = MachineRunnerFsm::new();

    // the cycle that moves the switch runs nothing, not even on a button edge
    assert!(!ran(&mut runner, MODE_AUTO | OP_BUTTON));
    assert_eq!(runner.mode(), RunMode::Auto);
    assert_eq!(runner.op_pressed_count, 0);
    assert_eq!(runner.last_input, MODE_AUTO | OP_BUTTON);

    // in automatic mode the machine runs every cycle
    for _ in 0..4 {
        assert!(ran(&mut runner, MODE_AUTO | OP_BUTTON));
    }

    assert!(!ran(&mut runner, OP_BUTTON));
    assert_eq!(runner.mode(), RunMode::Manual);
    assert!(!ran(&mut runner, OP_BUTTON));
}

#[test]
fn op_button_in_auto_pauses_and_resumes() {
    let mut runner = MachineRunnerFsm::new();
    assert!(!ran(&mut runner, MODE_AUTO));
    assert!(ran(&mut runner, MODE_AUTO));

    // first toggle: the count is odd, the machine pauses
    assert!(!ran(&mut runner, MODE_AUTO | OP_BUTTON));
    assert_eq!(runner.op_pressed_count, 1);
    for _ in 0..3 {
        assert!(!ran(&mut runner, MODE_AUTO | OP_BUTTON));
    }

    // second toggle: even again, the machine runs in that very cycle
    assert!(ran(&mut runner, MODE_AUTO));
    assert_eq!(runner.op_pressed_count, 2);
    assert!(ran(&mut runner, MODE_AUTO));
}

#[test]
fn op_button_count_wraps_and_keeps_its_parity() {
    let mut runner = MachineRunnerFsm::new();
    assert!(!ran(&mut runner, MODE_AUTO));
    runner.op_pressed_count = u16::MAX;
    assert!(!ran(&mut runner, MODE_AUTO));
    // the toggle takes the count from odd to even: the machine runs
    assert!(ran(&mut runner, MODE_AUTO | OP_BUTTON));
    assert_eq!(runner.op_pressed_count, 0);
    assert!(!ran(&mut runner, MODE_AUTO));
    assert_eq!(runner.op_pressed_count, 1);
}

#[test]
fn run_once_runs_the_feeders_whatever_the_mode_and_button() {
    let mut runner = MachineRunnerFsm::new();
    let mut data = frame(0, still(), still());
    data.set_digital_outputs(0x1234);
    assert!(!runner.runs(&data));
    runner.run_once(&mut data);
    assert_eq!(data.digital_outputs(), 0xC000);
    assert_eq!(data.servo_rx(0), hold(0));
    assert_eq!(data.servo_rx(1), hold(0));
    assert_eq!(runner.feeder1st().state(), Feeder1stState::Run);
    // the arbiter's own state is not its business
    assert_eq!(runner.last_input, 0);
    assert_eq!(runner.op_pressed_count, 0);
    assert_eq!(runner.mode(), RunMode::Manual);
}

#[test]
fn run_once_passes_each_stage_the_edge_of_the_other() {
    let mut runner = MachineRunnerFsm::with_sensor_gate(false);
    let mut data = DomainData::from_bytes([0; DOMAIN_SIZE]);
    let mut took_part_last_run = false;
    let mut parts_presented = 0;
    let mut parts_fetched = 0;
    let mut returns = 0;
    for _ in 0..6000 {
        data.set_digital_inputs(0x0001);
        for slot in 0..2 {
            let position_actual_value = data.servo_rx(slot).target_position;
            data.set_servo_tx(slot, ServoTxPdo { status_word: 0x0237, position_actual_value });
        }
        let second_before = runner.feeder2nd().state();
        let third_before = runner.feeder3rd().state();
        runner.run_once(&mut data);
        let second_after = runner.feeder2nd().state();
        let third_after = runner.feeder3rd().state();

        // the shuttle leaves the end in the run after the part was taken,
        // and in no other
        if second_before == Feeder2ndState::EndPending {
            assert_eq!(second_after == Feeder2ndState::MoveToStart, took_part_last_run);
            if took_part_last_run {
                returns += 1;
            }
        }
        took_part_last_run = third_before == Feeder3rdState::Pos1ToTakePart
            && third_after == Feeder3rdState::StartMove02;
        if took_part_last_run {
            assert_eq!(second_after, Feeder2ndState::EndPending);
        }

        // the third stage fetches a part once the shuttle has presented one
        // in an earlier run, and not before
        if third_before == Feeder3rdState::StartPending {
            let fetches = third_after == Feeder3rdState::StartMove04;
            assert_eq!(fetches, parts_presented > parts_fetched);
            if fetches {
                parts_fetched += 1;
            }
        }
        if second_before == Feeder2ndState::MoveToEnd && second_after == Feeder2ndState::EndPending {
            parts_presented += 1;
        }
    }
    assert!(returns >= 3);
    assert!(parts_fetched >= 3);
}

#[test]
fn digital_outputs_are_the_feeders_words_or_ed_together() {
    let mut runner = MachineRunnerFsm::with_sensor_gate(false);
    let mut data = DomainData::from_bytes([0; DOMAIN_SIZE]);
    cycle(&mut runner, &mut data, MODE_AUTO);
    let mut seen = std::collections::BTreeSet::new();
    for n in 0..8000_u32 {
        // a part every now and then, and nothing that stops the first stage
        let d_in = MODE_AUTO | if n % 500 < 3 { 0x0001 } else { 0 };
        cycle(&mut runner, &mut data, d_in);
        let c1 = runner.feeder1st().d_out();
        let c2 = runner.feeder2nd().d_out();
        let c3 = runner.feeder3rd().d_out();
        let d_out = data.digital_outputs();
        assert_eq!(
            d_out,
            (FEEDER_1ST_OUT_BIT_MASK & c1) | (FEEDER_2ND_OUT_BIT_MASK & c2) | (FEEDER_3RD_OUT_BIT_MASK & c3)
        );
        assert_eq!(d_out & FEEDER_1ST_OUT_BIT_MASK, c1);
        assert_eq!(d_out & FEEDER_2ND_OUT_BIT_MASK, c2);
        assert_eq!(d_out & FEEDER_3RD_OUT_BIT_MASK, c3);
        seen.insert(d_out);
    }
    // the run passed through kicks, breaker and both clips
    assert!(seen.len() >= 8);
    assert_eq!(FEEDER_1ST_OUT_BIT_MASK & FEEDER_2ND_OUT_BIT_MASK, 0);
    assert_eq!(FEEDER_1ST_OUT_BIT_MASK & FEEDER_3RD_OUT_BIT_MASK, 0);
    assert_eq!(FEEDER_2ND_OUT_BIT_MASK & FEEDER_3RD_OUT_BIT_MASK, 0);
}

#[test]
fn command_images_come_from_the_feeder_of_each_slot() {
    let mut runner = MachineRunnerFsm::new();
    let tx0 = ServoTxPdo { status_word: 0x0237, position_actual_value: 1111 };
    let tx1 = ServoTxPdo { status_word: 0x0237, position_actual_value: -2222 };
    let mut data = frame(OP_BUTTON, tx0, tx1);
    runner.react(&mut data);
    // both movers hold their drive where it stands
    assert_eq!(data.servo_rx(0).target_position, 1111);
    assert_eq!(data.servo_rx(1).target_position, -2222);
    let mut data = frame(0, tx0, tx1);
    runner.react(&mut data);
    assert_eq!(data.servo_rx(0).target_position, 132_544_062);
    assert_eq!(data.servo_rx(0).profile_velocity, 209_715_200);
    assert_eq!(data.servo_rx(1).target_position, -1_784_845);
    assert_eq!(data.servo_rx(1).profile_velocity, 139_810_133);
}

#[test]
fn shuttle_returns_only_after_the_part_was_taken() {
    let mut runner = MachineRunnerFsm::with_sensor_gate(false);
    let mut data = DomainData::from_bytes([0; DOMAIN_SIZE]);
    cycle(&mut runner, &mut data, MODE_AUTO);
    assert_eq!(runner.mode(), RunMode::Auto);

    let mut taken_since_start_pending = false;
    let mut returns = 0;
    let mut handovers = 0;
    for _ in 0..12_000 {
        let before2 = runner.feeder2nd().state();
        let before3 = runner.feeder3rd().state();
        cycle(&mut runner, &mut data, MODE_AUTO | 0x0001);
        let after2 = runner.feeder2nd().state();
        let after3 = runner.feeder3rd().state();

        if before3 == Feeder3rdState::Pos1ToTakePart && after3 == Feeder3rdState::StartMove02 {
            // the edge comes while the shuttle waits at the end
            assert_eq!(before2, Feeder2ndState::EndPending);
            taken_since_start_pending = true;
            handovers += 1;
        }
        if before2 == Feeder2ndState::EndPending && after2 == Feeder2ndState::MoveToStart {
            assert!(taken_since_start_pending);
        }
        if before2 == Feeder2ndState::MoveToStart && after2 == Feeder2ndState::StartPending {
            assert!(taken_since_start_pending);
            returns += 1;
        }
        if after2 == Feeder2ndState::StartPending {
            taken_since_start_pending = false;
        }
    }
    assert!(returns >= 3);
    assert_eq!(handovers, returns);
}

#[test]
fn sensor_gate_is_handed_down_to_the_third_stage() {
    for gated in [true, false] {
        let mut runner = MachineRunnerFsm::with_sensor_gate(gated);
        let mut data = DomainData::from_bytes([0; DOMAIN_SIZE]);
        cycle(&mut runner, &mut data, MODE_AUTO);
        for _ in 0..4000 {
            cycle(&mut runner, &mut data, MODE_AUTO | 0x0001);
        }
        // without the part sensor a gated third stage never picks
        assert_eq!(runner.feeder3rd().state() == Feeder3rdState::Pos1Holding, gated);
    }
}

#[test]
fn default_controller_waits_for_the_part_sensor() {
    let top = TopLevel::default();
    assert_eq!(top.state(), TopState::Init);
    assert_eq!(top.machine.mode(), RunMode::Manual);

    let mut runner = MachineRunnerFsm::default();
    let mut data = DomainData::from_bytes([0; DOMAIN_SIZE]);
    cycle(&mut runner, &mut data, MODE_AUTO);
    for _ in 0..4000 {
        cycle(&mut runner, &mut data, MODE_AUTO | 0x0001);
    }
    assert_eq!(runner.feeder3rd().state(), Feeder3rdState::Pos1Holding);
    // the sensor lets it go on
    cycle(&mut runner, &mut data, MODE_AUTO | 0x0004);
    assert_eq!(runner.feeder3rd().state(), Feeder3rdState::Pos1ToTakePart);
    assert_eq!(data.digital_outputs() & 0x0018, 0x0010);
}
