use marvin::level::FULL_SCALE;
use marvin::picoborg_rev::{
    encoder_speed_of, flag_of, identity_of, is_picoborg_rev, motor_level_of, pwm_from_power,
    u16_to_bytes, Channel, EncoderWait, PicoBorgRev, Transfer, WaitAction, WaitEvent,
    COMMAND_ALL_OFF, COMMAND_GET_A, COMMAND_GET_ENC_MOVING, COMMAND_GET_ENC_SPEED, COMMAND_GET_ID,
    COMMAND_MOVE_ALL_REV, COMMAND_MOVE_A_FWD, COMMAND_MOVE_A_REV, COMMAND_SET_ALL_FWD,
    COMMAND_SET_ALL_REV, COMMAND_SET_A_FWD, COMMAND_SET_A_REV, COMMAND_SET_B_FWD, COMMAND_SET_B_REV,
    COMMAND_SET_ENC_SPEED, COMMAND_SET_EPO_IGNORE, COMMAND_SET_LED, ENCODER_POLL_MS,
};
use marvin::robot_traits::{Led, Robot};

fn board() -> PicoBorgRev {
    let mut b = PicoBorgRev::new();
    b.take_pending();
    b
}

fn one_write(power: i32) -> Transfer {
    let mut b = board();
    b.set_motor_1(power);
    let t = b.take_pending();
    assert_eq!(t.len(), 1);
    t[0]
}

#[test]
fn mod_it_works() {
    assert_eq!(2 + 2, 4);
}

#[test]
fn lib_it_works() {
    assert_eq!(2 + 2, 4);
}

#[test]
fn new_reads_identity_first() {
    let mut b = PicoBorgRev::new();
    assert_eq!(b.take_pending(), vec![Transfer::ReadWord { command: COMMAND_GET_ID }]);
    assert!(b.take_pending().is_empty());
}

#[test]
fn identity_is_high_byte() {
    assert_eq!(identity_of(0x15ab), 0x15);
    assert!(is_picoborg_rev(0x1500));
    assert!(is_picoborg_rev(0x15ff));
    assert!(!is_picoborg_rev(0x0015));
    assert!(!is_picoborg_rev(0x1615));
}

#[test]
fn set_motor_half_forward_rounds() {
    assert_eq!(one_write(500_000), Transfer::WriteByte { command: COMMAND_SET_A_FWD, value: 128 });
}

#[test]
fn set_motor_half_reverse_rounds() {
    assert_eq!(one_write(-500_000), Transfer::WriteByte { command: COMMAND_SET_A_REV, value: 128 });
}

#[test]
fn set_motor_full_scale() {
    assert_eq!(one_write(FULL_SCALE), Transfer::WriteByte { command: COMMAND_SET_A_FWD, value: 255 });
    assert_eq!(one_write(-FULL_SCALE), Transfer::WriteByte { command: COMMAND_SET_A_REV, value: 255 });
}

#[test]
fn set_motor_zero_is_forward() {
    assert_eq!(one_write(0), Transfer::WriteByte { command: COMMAND_SET_A_FWD, value: 0 });
}

#[test]
fn set_motor_small_powers_round_to_nearest() {
    // 0.001 * 255 = 0.255, 0.002 * 255 = 0.51, 0.3 * 255 = 76.5
    assert_eq!(pwm_from_power(1_000), 0);
    assert_eq!(pwm_from_power(2_000), 1);
    assert_eq!(pwm_from_power(300_000), 77);
    assert_eq!(pwm_from_power(-300_000), 77);
    assert_eq!(pwm_from_power(-1), 0);
}

#[test]
fn set_motor_saturates_beyond_full_scale() {
    assert_eq!(one_write(2 * FULL_SCALE), Transfer::WriteByte { command: COMMAND_SET_A_FWD, value: 255 });
    assert_eq!(one_write(i32::MAX), Transfer::WriteByte { command: COMMAND_SET_A_FWD, value: 255 });
    assert_eq!(one_write(i32::MIN), Transfer::WriteByte { command: COMMAND_SET_A_REV, value: 255 });
    assert_eq!(one_write(-1_000_001), Transfer::WriteByte { command: COMMAND_SET_A_REV, value: 255 });
}

#[test]
fn set_motor_returns_commanded_byte() {
    let mut b = board();
    assert_eq!(b.set_motor(Channel::Motor2, -250_000), 64);
    assert_eq!(b.set_motors(750_000), 191);
    assert_eq!(
        b.take_pending(),
        vec![
            Transfer::WriteByte { command: COMMAND_SET_B_REV, value: 64 },
            Transfer::WriteByte { command: COMMAND_SET_ALL_FWD, value: 191 },
        ]
    );
}

#[test]
fn motor_reading_sign_follows_direction() {
    assert_eq!(motor_level_of(&[1, 200]), Some(200));
    assert_eq!(motor_level_of(&[2, 200]), Some(-200));
    assert_eq!(motor_level_of(&[2, 255, 9]), Some(-255));
    assert_eq!(motor_level_of(&[0, 200]), Some(0));
    assert_eq!(motor_level_of(&[7, 200]), Some(0));
    assert_eq!(motor_level_of(&[1]), None);
    assert_eq!(motor_level_of(&[]), None);
}

#[test]
fn flags_and_speed_decode() {
    assert_eq!(flag_of(&[1]), Some(true));
    assert_eq!(flag_of(&[0, 1]), Some(false));
    assert_eq!(flag_of(&[2]), Some(false));
    assert_eq!(flag_of(&[]), None);
    assert_eq!(encoder_speed_of(&[77, 1]), Some(77));
    assert_eq!(encoder_speed_of(&[]), None);
}

#[test]
fn reads_use_their_registers() {
    let mut b = board();
    b.get_motor_1();
    b.is_encoder_moving();
    b.get_encoder_speed();
    assert_eq!(
        b.take_pending(),
        vec![
            Transfer::ReadBlock { command: COMMAND_GET_A },
            Transfer::ReadBlock { command: COMMAND_GET_ENC_MOVING },
            Transfer::ReadBlock { command: COMMAND_GET_ENC_SPEED },
        ]
    );
}

#[test]
fn flags_write_on_and_off() {
    let mut b = board();
    b.set_led(true);
    b.set_epo_ignore(false);
    assert_eq!(
        b.take_pending(),
        vec![
            Transfer::WriteByte { command: COMMAND_SET_LED, value: 1 },
            Transfer::WriteByte { command: COMMAND_SET_EPO_IGNORE, value: 0 },
        ]
    );
}

#[test]
fn encoder_moves_are_big_endian_magnitudes() {
    let mut b = board();
    b.encoder_move_motor_1(300);
    b.encoder_move_motor_1(-300);
    b.encoder_move_motors(i16::MIN);
    assert_eq!(
        b.take_pending(),
        vec![
            Transfer::WriteBlock { command: COMMAND_MOVE_A_FWD, high: 1, low: 44 },
            Transfer::WriteBlock { command: COMMAND_MOVE_A_REV, high: 1, low: 44 },
            Transfer::WriteBlock { command: COMMAND_MOVE_ALL_REV, high: 0x80, low: 0 },
        ]
    );
    assert_eq!(u16_to_bytes(0xabcd), (0xab, 0xcd));
}

#[test]
fn encoder_speed_is_never_negative() {
    let mut b = board();
    assert_eq!(b.set_encoder_speed(-500_000), 0);
    assert_eq!(b.set_encoder_speed(500_000), 128);
    assert_eq!(
        b.take_pending(),
        vec![
            Transfer::WriteByte { command: COMMAND_SET_ENC_SPEED, value: 0 },
            Transfer::WriteByte { command: COMMAND_SET_ENC_SPEED, value: 128 },
        ]
    );
}

#[test]
fn robot_turns_drive_motors_apart() {
    let mut b = board();
    b.left(500_000);
    b.right(FULL_SCALE);
    b.backward(i32::MIN);
    b.reverse();
    b.stop();
    assert_eq!(
        b.take_pending(),
        vec![
            Transfer::WriteByte { command: COMMAND_SET_A_FWD, value: 128 },
            Transfer::WriteByte { command: COMMAND_SET_B_REV, value: 128 },
            Transfer::WriteByte { command: COMMAND_SET_A_REV, value: 255 },
            Transfer::WriteByte { command: COMMAND_SET_B_FWD, value: 255 },
            Transfer::WriteByte { command: COMMAND_SET_ALL_FWD, value: 255 },
            Transfer::WriteByte { command: COMMAND_SET_ALL_FWD, value: 0 },
        ]
    );
    b.backward(250_000);
    assert_eq!(b.take_pending(), vec![Transfer::WriteByte { command: COMMAND_SET_ALL_REV, value: 64 }]);
}

#[test]
fn board_led_capability() {
    let mut b = board();
    b.led_on();
    b.led_off();
    assert_eq!(
        b.take_pending(),
        vec![
            Transfer::WriteByte { command: COMMAND_SET_LED, value: 1 },
            Transfer::WriteByte { command: COMMAND_SET_LED, value: 0 },
        ]
    );
}

#[test]
fn teardown_sends_one_all_off_after_a_failed_flush() {
    let mut b = board();
    b.set_motors(FULL_SCALE);
    b.set_led(true);
    // Those two were never sent: the flush failed.
    b.teardown();
    assert_eq!(b.take_pending(), vec![Transfer::WriteByte { command: COMMAND_ALL_OFF, value: 0 }]);
}

fn simulate_wait(timeout_ms: u64, moving_polls: u32) -> (bool, u64) {
    let wait = EncoderWait { timeout_ms };
    let mut elapsed: u64 = 0;
    let mut polls: u32 = 0;
    let mut action = wait.start();
    loop {
        action = match action {
            WaitAction::Poll => {
                polls += 1;
                wait.step(WaitEvent::Moving(polls <= moving_polls))
            }
            WaitAction::Sleep { ms } => {
                elapsed += ms;
                wait.step(WaitEvent::Slept { elapsed_ms: elapsed })
            }
            WaitAction::Finish { finished } => return (finished, elapsed),
        };
    }
}

#[test]
fn wait_times_out_against_an_always_moving_board() {
    let (finished, elapsed) = simulate_wait(200, u32::MAX);
    assert!(!finished);
    assert!(elapsed >= 200);
    assert_eq!(elapsed, 300);
}

#[test]
fn wait_finishes_when_the_board_stops() {
    assert_eq!(simulate_wait(1_000, 2), (true, 2 * ENCODER_POLL_MS));
    assert_eq!(simulate_wait(0, 0), (true, 0));
}

#[test]
fn wait_steps() {
    let wait = EncoderWait { timeout_ms: 200 };
    assert_eq!(wait.start(), WaitAction::Poll);
    assert_eq!(wait.step(WaitEvent::Moving(true)), WaitAction::Sleep { ms: 100 });
    assert_eq!(wait.step(WaitEvent::Moving(false)), WaitAction::Finish { finished: true });
    assert_eq!(wait.step(WaitEvent::Slept { elapsed_ms: 200 }), WaitAction::Poll);
    assert_eq!(wait.step(WaitEvent::Slept { elapsed_ms: 201 }), WaitAction::Finish { finished: false });
}
