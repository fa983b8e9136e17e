use ctrl_804::feeder::feeder1st::{Feeder1st, Feeder1stState};
use ctrl_804::feeder::feeder2nd::{
    Feeder2nd, Feeder2ndState, FEEDER_2ND_OUT_BIT_MASK, FEEDER_2ND_POS_END, FEEDER_2ND_POS_START,
};
use ctrl_804::feeder::feeder3rd::{
    Feeder3rd, Feeder3rdState, FEEDER_3RD_OUT_BIT_MASK, FEEDER_3RD_POS_01, FEEDER_3RD_POS_02,
    FEEDER_3RD_POS_03, FEEDER_3RD_POS_04,
};
use ctrl_804::servo::servo_pdo::{ServoRxPdo, ServoTxPdo};

const AUTO: bool = false;
const MANUAL: bool = true;

fn at(position_actual_value: i32) -> ServoTxPdo {
    ServoTxPdo { status_word: 0x0237, position_actual_value }
}

/// Runs the second stage with a drive that follows every command at once,
/// until the stage leaves `state` or `limit` cycles have passed.
fn run_2nd_while(
    feeder: &mut Feeder2nd,
    position: &mut i32,
    state: Feeder2ndState,
    is_manual: bool,
    limit: u32,
) -> u32 {
    let mut cycles = 0;
    while feeder.state() == state && cycles < limit {
        let (_, rx, _) = feeder.update(at(*position), 0, is_manual);
        *position = rx.target_position;
        cycles += 1;
    }
    cycles
}

/// Brings a new second stage to `StartPending`, with no detection pending.
fn second_stage_start_pending() -> Feeder2nd {
    let mut feeder = Feeder2nd::new();
    let (d_out, _, reached) = feeder.update(at(FEEDER_2ND_POS_START), 0, AUTO);
    assert_eq!(d_out, 0x4000);
    assert!(!reached);
    assert_eq!(feeder.state(), Feeder2ndState::StartPending);
    feeder
}

/// Brings a new second stage to `EndPending` in manual mode.
fn second_stage_end_pending() -> (Feeder2nd, i32) {
    let mut feeder = second_stage_start_pending();
    let mut position = FEEDER_2ND_POS_START;
    feeder.update(at(position), 0x0001, MANUAL);
    assert_eq!(feeder.state(), Feeder2ndState::StartKick01);
    for _ in 0..5 {
        feeder.update(at(position), 0, MANUAL);
    }
    assert_eq!(feeder.state(), Feeder2ndState::MoveToEnd);
    run_2nd_while(&mut feeder, &mut position, Feeder2ndState::MoveToEnd, MANUAL, 20);
    assert_eq!(feeder.state(), Feeder2ndState::EndPending);
    assert_eq!(position, FEEDER_2ND_POS_END);
    (feeder, position)
}

#[test]
fn feeder1_toggles_its_output_bit() {
    let mut feeder = Feeder1st::new();
    assert_eq!(feeder.state(), Feeder1stState::Stop);
    assert_eq!(feeder.d_out(), 0);
    assert_eq!(feeder.update(0x0000), 0x8000);
    assert_eq!(feeder.state(), Feeder1stState::Run);
    assert_eq!(feeder.update(0x0001), 0x0000);
    assert_eq!(feeder.state(), Feeder1stState::Stop);
}

#[test]
fn feeder1_latches_between_edges() {
    let mut feeder = Feeder1st::new();
    // stopped: any masked sensor bit keeps it stopped
    for d_in in [0x0001, 0x0008, 0x0010, 0x0020, 0x0039, 0xFFFF] {
        assert_eq!(feeder.update(d_in), 0);
        assert_eq!(feeder.state(), Feeder1stState::Stop);
    }
    // bits outside the mask do not count
    assert_eq!(feeder.update(0xFFC6), 0x8000);
    assert_eq!(feeder.state(), Feeder1stState::Run);
    for d_in in [0x0000, 0x0002, 0x0004, 0xC000, 0xFFC6] {
        assert_eq!(feeder.update(d_in), 0x8000);
        assert_eq!(feeder.state(), Feeder1stState::Run);
    }
    assert_eq!(feeder.update(0x0010), 0);
    assert_eq!(feeder.state(), Feeder1stState::Stop);
}

#[test]
fn feeder2_starts_with_the_breaker_on() {
    let feeder = Feeder2nd::new();
    assert_eq!(feeder.state(), Feeder2ndState::Init);
    assert_eq!(feeder.d_out(), 0x4000);
    assert!(!feeder.product_passed());
    assert_eq!(feeder.product_passed_delay(), 0);
    assert_eq!(feeder.kicker_count(), 0);
}

#[test]
fn feeder2_init_moves_the_shuttle_to_start_at_1500_rpm() {
    let mut feeder = Feeder2nd::new();
    let (d_out, rx, reached) = feeder.update(at(0), 0, AUTO);
    assert_eq!(d_out, 0x4000);
    assert!(!reached);
    // first the drive is held where it stands
    assert_eq!(rx.control_word, 0x000F);
    assert_eq!(rx.target_position, 0);
    assert_eq!(rx.profile_velocity, 0);
    let (_, rx, _) = feeder.update(at(0), 0, AUTO);
    assert_eq!(
        rx,
        ServoRxPdo {
            control_word: 0x000F,
            target_position: 132_544_062,
            profile_velocity: 209_715_200,
            profile_acceleration: 332_881_269,
            profile_deceleration: 332_881_269,
            mode_of_operation: 1,
        }
    );
    let (_, rx, _) = feeder.update(at(0), 0, AUTO);
    assert_eq!(rx.control_word, 0x001F);
    assert_eq!(feeder.state(), Feeder2ndState::Init);
    feeder.update(at(FEEDER_2ND_POS_START), 0, AUTO);
    assert_eq!(feeder.state(), Feeder2ndState::Init);
    feeder.update(at(FEEDER_2ND_POS_START), 0, AUTO);
    assert_eq!(feeder.state(), Feeder2ndState::StartPending);
}

#[test]
fn feeder2_debounce_in_auto_latches_after_1000_cycles() {
    // the shuttle never arrives, so the stage stays in Init and the latch
    // stays visible
    let mut feeder = Feeder2nd::new();
    let far = ServoTxPdo { status_word: 0, position_actual_value: 0 };
    feeder.update(far, 0x0000, AUTO);
    feeder.update(far, 0x0002, AUTO);
    assert_eq!(feeder.product_passed_delay(), 1000);
    assert!(!feeder.product_passed());
    for _ in 0..999 {
        feeder.update(far, 0x0000, AUTO);
        assert!(!feeder.product_passed());
    }
    assert_eq!(feeder.product_passed_delay(), 1);
    feeder.update(far, 0x0000, AUTO);
    assert!(feeder.product_passed());
    assert_eq!(feeder.product_passed_delay(), 0);
    // the latch holds until a kick consumes it
    for _ in 0..10 {
        feeder.update(far, 0x0000, AUTO);
        assert!(feeder.product_passed());
    }
    assert_eq!(feeder.state(), Feeder2ndState::Init);
}

#[test]
fn feeder2_debounce_in_manual_latches_after_one_cycle() {
    let mut feeder = Feeder2nd::new();
    let far = ServoTxPdo { status_word: 0, position_actual_value: 0 };
    feeder.update(far, 0x0002, MANUAL);
    assert_eq!(feeder.product_passed_delay(), 1);
    assert!(!feeder.product_passed());
    feeder.update(far, 0x0002, MANUAL);
    assert!(feeder.product_passed());
}

#[test]
fn feeder2_debounce_counts_rising_edges_only() {
    let mut feeder = Feeder2nd::new();
    let far = ServoTxPdo { status_word: 0, position_actual_value: 0 };
    feeder.update(far, 0x0002, AUTO);
    assert_eq!(feeder.product_passed_delay(), 1000);
    // the bit held high is no edge: the countdown runs
    feeder.update(far, 0x0002, AUTO);
    assert_eq!(feeder.product_passed_delay(), 999);
    // a falling edge is no start either
    feeder.update(far, 0x0000, AUTO);
    assert_eq!(feeder.product_passed_delay(), 998);
    // other bits do not count
    feeder.update(far, 0xFFFD, AUTO);
    assert_eq!(feeder.product_passed_delay(), 997);
    // the next rising edge starts the countdown anew
    feeder.update(far, 0xFFFF, AUTO);
    assert_eq!(feeder.product_passed_delay(), 1000);
}

#[test]
fn feeder2_latches_nothing_without_a_product_edge() {
    // at the start position, no part at the sensors, no product passing
    let mut feeder = Feeder2nd::default();
    let here = ServoTxPdo { status_word: 0, position_actual_value: 132_544_062 };
    for _ in 0..400 {
        let (d_out, _, reached) = feeder.update(here, 0x0000, AUTO);
        assert_eq!((d_out, reached), (0x4000, false));
        assert!(!feeder.product_passed());
        assert_eq!(feeder.product_passed_delay(), 0);
    }
    assert_eq!(feeder.state(), Feeder2ndState::StartPending);

    // the same while the shuttle never arrives, and with the sensor bit held
    let mut feeder = Feeder2nd::new();
    let far = ServoTxPdo { status_word: 0, position_actual_value: 0 };
    feeder.update(far, 0x0002, MANUAL);
    feeder.update(far, 0x0002, MANUAL);
    assert!(feeder.product_passed());
    let mut feeder = Feeder2nd::new();
    for d_in in [0x0000_u16, 0xFFFD, 0x0039, 0x8000, 0x0000] {
        for _ in 0..300 {
            feeder.update(far, d_in, AUTO);
            assert!(!feeder.product_passed());
        }
    }
    assert_eq!(feeder.state(), Feeder2ndState::Init);
}

#[test]
fn feeders_show_their_mover() {
    let mut second = Feeder2nd::new();
    assert!(second.drives_mover());
    assert_eq!(second.servo_mover().target_position(), 0);
    second.update(at(0), 0, AUTO);
    assert_eq!(second.servo_mover().target_position(), FEEDER_2ND_POS_START);
    assert_eq!(second.servo_mover().profile_velocity(), 209_715_200);
    assert!(!second.servo_mover().is_ready());
    second.update(at(FEEDER_2ND_POS_START), 0, AUTO);
    let mut position = FEEDER_2ND_POS_START;
    run_2nd_while(&mut second, &mut position, Feeder2ndState::Init, AUTO, 20);
    assert_eq!(second.state(), Feeder2ndState::StartPending);
    assert!(!second.drives_mover());
    assert!(second.servo_mover().is_ready());

    let mut third = Feeder3rd::new();
    assert!(third.drives_mover());
    let mut position = FEEDER_3RD_POS_03;
    run_3rd(&mut third, &mut position, 0, 1);
    assert_eq!(third.state(), Feeder3rdState::StartPending);
    assert!(!third.drives_mover());
    assert_eq!(third.servo_mover().target_position(), FEEDER_3RD_POS_03);
    third.trigger_next();
    run_3rd(&mut third, &mut position, 0, 1);
    assert!(third.drives_mover());
    assert_eq!(third.servo_mover().target_position(), FEEDER_3RD_POS_04);
    // in Pos01Empty the mover is driven only once the idle time is over
    run_3rd(&mut third, &mut position, 0x0004, 5 + 200 + 5 + 1 + 200 + 5 + 200);
    assert_eq!(third.state(), Feeder3rdState::Pos01Empty);
    assert_eq!(third.kick_count(), 300);
    assert!(!third.drives_mover());
    run_3rd(&mut third, &mut position, 0, 300);
    assert_eq!(third.state(), Feeder3rdState::Pos01Empty);
    assert!(third.drives_mover());
}

#[test]
fn feeder2_passed_product_starts_the_kick() {
    let mut feeder = second_stage_start_pending();
    let here = at(FEEDER_2ND_POS_START);
    feeder.update(here, 0x0002, AUTO);
    for _ in 0..999 {
        let (d_out, _, _) = feeder.update(here, 0x0000, AUTO);
        assert_eq!(d_out, 0x4000);
        assert_eq!(feeder.state(), Feeder2ndState::StartPending);
    }
    let (d_out, _, _) = feeder.update(here, 0x0000, AUTO);
    assert_eq!(d_out, 0x0001);
    assert_eq!(feeder.state(), Feeder2ndState::StartKick01);
    assert_eq!(feeder.kicker_count(), 780);
    // the kick has consumed the detection
    assert!(!feeder.product_passed());
}

#[test]
fn feeder2_kick_sequence_takes_2080_cycles_in_auto() {
    let mut feeder = second_stage_start_pending();
    let here = at(FEEDER_2ND_POS_START);
    for sensor in [0x0002_u16, 0x0004, 0x4000, 0x8000] {
        feeder.update(here, sensor & !0x0002, AUTO);
        assert_eq!(feeder.state(), Feeder2ndState::StartPending);
    }
    let (d_out, _, _) = feeder.update(here, 0x0001, AUTO);
    assert_eq!(d_out, 0x0001);
    assert_eq!(feeder.state(), Feeder2ndState::StartKick01);

    let mut outputs = Vec::new();
    let mut states = Vec::new();
    for _ in 0..2080 {
        let (d_out, _, reached) = feeder.update(here, 0, AUTO);
        assert!(!reached);
        outputs.push(d_out);
        states.push(feeder.state());
    }
    // cycle n of the sequence is index n - 1
    assert!(outputs[..779].iter().all(|d| *d == 0x0001));
    assert!(states[..779].iter().all(|s| *s == Feeder2ndState::StartKick01));
    assert!(outputs[779..1229].iter().all(|d| *d == 0x0002));
    assert!(states[779..1229].iter().all(|s| *s == Feeder2ndState::StartKick02));
    assert!(outputs[1229..1879].iter().all(|d| *d == 0x0006));
    assert!(outputs[1879..].iter().all(|d| *d == 0x4000));
    assert!(states[1229..2079].iter().all(|s| *s == Feeder2ndState::StartKick03));
    assert_eq!(states[2079], Feeder2ndState::MoveToEnd);

    // the next cycles command the shuttle to the end position
    let (_, rx, _) = feeder.update(here, 0, AUTO);
    assert_eq!(rx.target_position, FEEDER_2ND_POS_START);
    assert_eq!(rx.profile_velocity, 0);
    let (_, rx, _) = feeder.update(here, 0, AUTO);
    assert_eq!(rx.target_position, -29_858_310);
    assert_eq!(rx.profile_velocity, 209_715_200);
}

#[test]
fn feeder2_kick_sequence_takes_5_cycles_in_manual() {
    let mut feeder = second_stage_start_pending();
    let here = at(FEEDER_2ND_POS_START);
    let (d_out, _, _) = feeder.update(here, 0x0020, MANUAL);
    assert_eq!(d_out, 0x0001);
    assert_eq!(feeder.kicker_count(), 1);
    let expected = [
        (0x0002, Feeder2ndState::StartKick02),
        (0x0006, Feeder2ndState::StartKick03),
        (0x4000, Feeder2ndState::StartKick03),
        (0x4000, Feeder2ndState::StartKick03),
        (0x4000, Feeder2ndState::MoveToEnd),
    ];
    for (d_out, state) in expected {
        assert_eq!(feeder.update(here, 0, MANUAL).0, d_out);
        assert_eq!(feeder.state(), state);
    }
}

#[test]
fn feeder2_reports_the_end_position_once() {
    let mut feeder = second_stage_start_pending();
    let mut position = FEEDER_2ND_POS_START;
    feeder.update(at(position), 0x0008, MANUAL);
    for _ in 0..5 {
        feeder.update(at(position), 0, MANUAL);
    }
    let mut edges = 0;
    for _ in 0..30 {
        let (_, rx, reached) = feeder.update(at(position), 0, MANUAL);
        position = rx.target_position;
        if reached {
            edges += 1;
            assert_eq!(feeder.state(), Feeder2ndState::EndPending);
            assert_eq!(position, FEEDER_2ND_POS_END);
        }
    }
    assert_eq!(edges, 1);
    assert_eq!(feeder.state(), Feeder2ndState::EndPending);
}

#[test]
fn feeder2_holds_its_output_in_end_pending_until_triggered() {
    let (mut feeder, position) = second_stage_end_pending();
    let (d_out, rx, _) = feeder.update(at(position), 0, MANUAL);
    assert_eq!(d_out, 0x4000);
    for (n, d_in) in [0x0000_u16, 0x0001, 0x0039, 0xFFFF, 0x0002, 0x0000, 0x8000].iter().enumerate()
    {
        let tx = ServoTxPdo { status_word: 0x0200 * (n as u16 % 2), position_actual_value: n as i32 };
        let out = feeder.update(tx, *d_in, n % 2 == 0);
        assert_eq!(out, (d_out, rx, false));
        assert_eq!(feeder.state(), Feeder2ndState::EndPending);
    }
    feeder.trigger_next();
    assert_eq!(feeder.state(), Feeder2ndState::EndPending);
    let (d_out, _, reached) = feeder.update(at(position), 0, MANUAL);
    assert_eq!(d_out, 0x4000);
    assert!(!reached);
    assert_eq!(feeder.state(), Feeder2ndState::MoveToStart);
}

#[test]
fn feeder2_returns_to_start_pending_after_the_trigger() {
    let (mut feeder, mut position) = second_stage_end_pending();
    feeder.trigger_next();
    feeder.update(at(position), 0, MANUAL);
    assert_eq!(feeder.state(), Feeder2ndState::MoveToStart);
    let cycles = run_2nd_while(&mut feeder, &mut position, Feeder2ndState::MoveToStart, MANUAL, 20);
    assert_eq!(cycles, 5);
    assert_eq!(position, FEEDER_2ND_POS_START);
    assert_eq!(feeder.state(), Feeder2ndState::StartPending);
    // the trigger was consumed: the next round waits again
    feeder.update(at(position), 0x0001, MANUAL);
    for _ in 0..5 {
        feeder.update(at(position), 0, MANUAL);
    }
    run_2nd_while(&mut feeder, &mut position, Feeder2ndState::MoveToEnd, MANUAL, 20);
    for _ in 0..10 {
        feeder.update(at(position), 0, MANUAL);
        assert_eq!(feeder.state(), Feeder2ndState::EndPending);
    }
}

#[test]
fn feeder2_early_trigger_is_kept_for_end_pending() {
    let mut feeder = second_stage_start_pending();
    feeder.trigger_next();
    let mut position = FEEDER_2ND_POS_START;
    feeder.update(at(position), 0x0001, MANUAL);
    for _ in 0..5 {
        feeder.update(at(position), 0, MANUAL);
    }
    run_2nd_while(&mut feeder, &mut position, Feeder2ndState::MoveToEnd, MANUAL, 20);
    assert_eq!(feeder.state(), Feeder2ndState::EndPending);
    feeder.update(at(position), 0, MANUAL);
    assert_eq!(feeder.state(), Feeder2ndState::MoveToStart);
}

#[test]
fn feeder2_output_stays_inside_its_mask() {
    let mut feeder = Feeder2nd::new();
    let mut position = 0;
    for n in 0..6000_u32 {
        let d_in = (n.wrapping_mul(2_654_435_761) >> 16) as u16;
        let (d_out, rx, reached) = feeder.update(at(position), d_in, n % 3 == 0);
        position = rx.target_position;
        assert_eq!(d_out & !FEEDER_2ND_OUT_BIT_MASK, 0);
        assert_eq!(d_out, feeder.d_out());
        if reached {
            feeder.trigger_next();
        }
    }
}

/// Runs the third stage with a drive that follows every command at once and
/// returns the outputs of each cycle.
fn run_3rd(feeder: &mut Feeder3rd, position: &mut i32, d_in: u16, cycles: u32) -> Vec<(u16, bool)> {
    let mut out = Vec::new();
    for _ in 0..cycles {
        let (d_out, rx, took) = feeder.update(at(*position), d_in, );
        *position = rx.target_position;
        out.push((d_out, took));
    }
    out
}

#[test]
fn feeder3_walks_one_full_round() {
    let mut feeder = Feeder3rd::new();
    let mut position = FEEDER_3RD_POS_03;
    assert_eq!(feeder.state(), Feeder3rdState::Init);
    assert_eq!(feeder.d_out(), 0);

    // Init: already at the third position, so the first clip closes at once
    assert_eq!(run_3rd(&mut feeder, &mut position, 0, 1), vec![(0x0008, false)]);
    assert_eq!(feeder.state(), Feeder3rdState::StartPending);

    // StartPending: waits for the second stage
    assert!(run_3rd(&mut feeder, &mut position, 0xFFFF, 50).iter().all(|o| *o == (0x0008, false)));
    assert_eq!(feeder.state(), Feeder3rdState::StartPending);
    feeder.trigger_next();
    run_3rd(&mut feeder, &mut position, 0, 1);
    assert_eq!(feeder.state(), Feeder3rdState::StartMove04);

    // StartMove04: five cycles of move, then the clip opens
    let out = run_3rd(&mut feeder, &mut position, 0, 5);
    assert_eq!(position, FEEDER_3RD_POS_04);
    assert!(out[..4].iter().all(|o| *o == (0x0008, false)));
    assert_eq!(out[4], (0x0000, false));
    assert_eq!(feeder.state(), Feeder3rdState::StartMove04Clip);
    assert_eq!(feeder.kick_count(), 200);

    // 200 cycles for the clip
    run_3rd(&mut feeder, &mut position, 0, 199);
    assert_eq!(feeder.state(), Feeder3rdState::StartMove04Clip);
    run_3rd(&mut feeder, &mut position, 0, 1);
    assert_eq!(feeder.state(), Feeder3rdState::StartMove01);

    run_3rd(&mut feeder, &mut position, 0, 5);
    assert_eq!(position, FEEDER_3RD_POS_01);
    assert_eq!(feeder.state(), Feeder3rdState::Pos1Holding);

    // Pos1Holding: waits for the part sensor
    assert!(run_3rd(&mut feeder, &mut position, 0xFFFB, 30).iter().all(|o| *o == (0x0000, false)));
    assert_eq!(feeder.state(), Feeder3rdState::Pos1Holding);
    assert_eq!(run_3rd(&mut feeder, &mut position, 0x0004, 1), vec![(0x0010, false)]);
    assert_eq!(feeder.state(), Feeder3rdState::Pos1ToTakePart);

    // the part is taken in the 200th cycle, and reported in that cycle only
    let out = run_3rd(&mut feeder, &mut position, 0, 200);
    assert!(out[..199].iter().all(|o| *o == (0x0010, false)));
    assert_eq!(out[199], (0x0010, true));
    assert_eq!(feeder.state(), Feeder3rdState::StartMove02);

    let out = run_3rd(&mut feeder, &mut position, 0, 5);
    assert_eq!(position, FEEDER_3RD_POS_02);
    assert_eq!(out[4], (0x0018, false));
    assert_eq!(feeder.state(), Feeder3rdState::Pos02Release);

    run_3rd(&mut feeder, &mut position, 0, 200);
    assert_eq!(feeder.state(), Feeder3rdState::Pos01Empty);
    assert_eq!(feeder.kick_count(), 300);

    // idles 300 cycles, then returns to the first position
    run_3rd(&mut feeder, &mut position, 0, 300);
    assert_eq!(position, FEEDER_3RD_POS_02);
    assert_eq!(feeder.kick_count(), 0);
    run_3rd(&mut feeder, &mut position, 0, 5);
    assert_eq!(position, FEEDER_3RD_POS_01);
    assert_eq!(feeder.state(), Feeder3rdState::EmptyPendingStep1);

    let out = run_3rd(&mut feeder, &mut position, 0, 200);
    assert!(out[..199].iter().all(|o| *o == (0x0018, false)));
    assert_eq!(out[199], (0x0000, false));
    assert_eq!(feeder.state(), Feeder3rdState::EmptyPendingStep2);

    run_3rd(&mut feeder, &mut position, 0, 299);
    assert_eq!(feeder.state(), Feeder3rdState::EmptyPendingStep2);
    run_3rd(&mut feeder, &mut position, 0, 1);
    assert_eq!(feeder.state(), Feeder3rdState::Init);

    // and round again
    run_3rd(&mut feeder, &mut position, 0, 5);
    assert_eq!(position, FEEDER_3RD_POS_03);
    assert_eq!(feeder.state(), Feeder3rdState::StartPending);
    assert_eq!(feeder.d_out(), 0x0008);
}

#[test]
fn feeder3_without_the_sensor_gate_picks_at_once() {
    let mut feeder = Feeder3rd::with_sensor_gate(false);
    let mut position = FEEDER_3RD_POS_03;
    run_3rd(&mut feeder, &mut position, 0, 1);
    feeder.trigger_next();
    run_3rd(&mut feeder, &mut position, 0, 1 + 5 + 200 + 5);
    assert_eq!(feeder.state(), Feeder3rdState::Pos1Holding);
    assert_eq!(run_3rd(&mut feeder, &mut position, 0, 1), vec![(0x0010, false)]);
    assert_eq!(feeder.state(), Feeder3rdState::Pos1ToTakePart);
    assert_eq!(feeder.kick_count(), 200);
}

#[test]
fn feeder3_positions_are_commanded_in_order() {
    let mut feeder = Feeder3rd::with_sensor_gate(false);
    let mut position = 0;
    let mut targets = vec![];
    feeder.trigger_next();
    for _ in 0..2000 {
        let (_, rx, _) = feeder.update(at(position), 0);
        if rx.profile_velocity != 0 && targets.last() != Some(&rx.target_position) {
            targets.push(rx.target_position);
        }
        position = rx.target_position;
    }
    assert_eq!(
        targets,
        vec![-1_784_845, 39_721_881, -271_099_293, -258_935_271, -271_099_293, -1_784_845]
    );
}

#[test]
fn feeder3_output_stays_inside_its_mask() {
    let mut feeder = Feeder3rd::new();
    let mut position = 0;
    for n in 0..6000_u32 {
        let d_in = (n.wrapping_mul(2_654_435_761) >> 16) as u16;
        let (d_out, rx, _) = feeder.update(at(position), d_in);
        position = rx.target_position;
        assert_eq!(d_out & !FEEDER_3RD_OUT_BIT_MASK, 0);
        assert_eq!(d_out, feeder.d_out());
        if n % 700 == 0 {
            feeder.trigger_next();
        }
    }
}

#[test]
fn feeder3_stalls_with_the_mover() {
    let mut feeder = Feeder3rd::new();
    for _ in 0..500 {
        let tx = ServoTxPdo { status_word: 0x0008, position_actual_value: 0 };
        let (d_out, rx, took) = feeder.update(tx, 0xFFFF);
        assert_eq!((d_out, took), (0, false));
        assert_eq!(rx.target_position, 0);
        assert_eq!(rx.profile_velocity, 0);
        assert_eq!(feeder.state(), Feeder3rdState::Init);
    }
}
