//! The PicoBorg Reverse motor board: its register-style command protocol.
//!
//! `PicoBorgRev` holds the transfers that are due on the bus, in order; the
//! owner of the bus takes them with `take_pending`, performs each one at
//! `I2C_ADDRESS`, and hands the replies of reads to the decoders below. The
//! decoders number the bytes of a block from its first value: byte 0 is a flag
//! or a motor's direction, byte 1 a motor's PWM rate.

use vstd::prelude::*;
use crate::level::{abs, magnitude, round_scaled, scaled_round, FULL_SCALE};
use crate::robot_traits::{Led, Robot};

verus! {

/// The bus address of the board.
pub const I2C_ADDRESS: u16 = 0x44;

/// The largest PWM rate.
pub const PWM_MAX: u8 = 255;

/// The identity that a genuine board reports in the high byte of `COMMAND_GET_ID`.
pub const I2C_ID_PICOBORG_REV: u8 = 0x15;

/// Set the LED status.
pub const COMMAND_SET_LED: u8 = 1;
/// Get the LED status.
pub const COMMAND_GET_LED: u8 = 2;
/// Set motor 1 PWM rate in a forwards direction.
pub const COMMAND_SET_A_FWD: u8 = 3;
/// Set motor 1 PWM rate in a reverse direction.
pub const COMMAND_SET_A_REV: u8 = 4;
/// Get motor 1 direction and PWM rate.
pub const COMMAND_GET_A: u8 = 5;
/// Set motor 2 PWM rate in a forwards direction.
pub const COMMAND_SET_B_FWD: u8 = 6;
/// Set motor 2 PWM rate in a reverse direction.
pub const COMMAND_SET_B_REV: u8 = 7;
/// Get motor 2 direction and PWM rate.
pub const COMMAND_GET_B: u8 = 8;
/// Switch everything off.
pub const COMMAND_ALL_OFF: u8 = 9;
/// Reset the EPO latch, once the switch is clear again.
pub const COMMAND_RESET_EPO: u8 = 10;
/// Get the EPO latched flag.
pub const COMMAND_GET_EPO: u8 = 11;
/// Set the EPO ignored flag, which lets the board run without an EPO switch.
pub const COMMAND_SET_EPO_IGNORE: u8 = 12;
/// Get the EPO ignored flag.
pub const COMMAND_GET_EPO_IGNORE: u8 = 13;
/// Get the drive fault flag (short circuits, under voltage).
pub const COMMAND_GET_DRIVE_FAULT: u8 = 14;
/// Set all motors PWM rate in a forwards direction.
pub const COMMAND_SET_ALL_FWD: u8 = 15;
/// Set all motors PWM rate in a reverse direction.
pub const COMMAND_SET_ALL_REV: u8 = 16;
/// Set the failsafe flag: motors off when communication stops.
pub const COMMAND_SET_FAILSAFE: u8 = 17;
/// Get the failsafe flag.
pub const COMMAND_GET_FAILSAFE: u8 = 18;
/// Set the board into encoder or speed mode.
pub const COMMAND_SET_ENC_MODE: u8 = 19;
/// Get the board's current mode, encoder or speed.
pub const COMMAND_GET_ENC_MODE: u8 = 20;
/// Move motor 1 forward by n encoder ticks.
pub const COMMAND_MOVE_A_FWD: u8 = 21;
/// Move motor 1 reverse by n encoder ticks.
pub const COMMAND_MOVE_A_REV: u8 = 22;
/// Move motor 2 forward by n encoder ticks.
pub const COMMAND_MOVE_B_FWD: u8 = 23;
/// Move motor 2 reverse by n encoder ticks.
pub const COMMAND_MOVE_B_REV: u8 = 24;
/// Move all motors forward by n encoder ticks.
pub const COMMAND_MOVE_ALL_FWD: u8 = 25;
/// Move all motors reverse by n encoder ticks.
pub const COMMAND_MOVE_ALL_REV: u8 = 26;
/// Get the status of encoders moving.
pub const COMMAND_GET_ENC_MOVING: u8 = 27;
/// Set the maximum PWM rate in encoder mode.
pub const COMMAND_SET_ENC_SPEED: u8 = 28;
/// Get the maximum PWM rate in encoder mode.
pub const COMMAND_GET_ENC_SPEED: u8 = 29;
/// Get the board identifier.
pub const COMMAND_GET_ID: u8 = 0x99;
/// Set a new bus address.
pub const COMMAND_SET_I2C_ADD: u8 = 0xAA;

/// The value that stands for forward.
pub const COMMAND_VALUE_FWD: u8 = 1;
/// The value that stands for reverse.
pub const COMMAND_VALUE_REV: u8 = 2;
/// The value that stands for on.
pub const COMMAND_VALUE_ON: u8 = 1;
/// The value that stands for off.
pub const COMMAND_VALUE_OFF: u8 = 0;

/// One exchange with the board at `I2C_ADDRESS`.
#[derive(Clone, Copy, Debug, PartialEq, Eq, Structural)]
pub enum Transfer {
    /// SMBus "write byte data": `value` into register `command`.
    WriteByte { command: u8, value: u8 },
    /// SMBus "write block data": the two bytes `high`, `low` into register `command`.
    WriteBlock { command: u8, high: u8, low: u8 },
    /// SMBus "read word data" from register `command`.
    ReadWord { command: u8 },
    /// SMBus "read block data" from register `command`.
    ReadBlock { command: u8 },
}

/// Which motors a command drives.
#[derive(Clone, Copy, Debug, PartialEq, Eq, Structural)]
pub enum Channel {
    Motor1,
    Motor2,
    /// Both motors, with one bus write.
    All,
}

/// The command that sets the PWM rate of `channel` in the given direction.
pub open spec fn set_command(channel: Channel, reverse: bool) -> u8 {
    match channel {
        Channel::Motor1 => if reverse { COMMAND_SET_A_REV } else { COMMAND_SET_A_FWD },
        Channel::Motor2 => if reverse { COMMAND_SET_B_REV } else { COMMAND_SET_B_FWD },
        Channel::All => if reverse { COMMAND_SET_ALL_REV } else { COMMAND_SET_ALL_FWD },
    }
}

/// The command that moves `channel` by encoder ticks in the given direction.
pub open spec fn move_command(channel: Channel, reverse: bool) -> u8 {
    match channel {
        Channel::Motor1 => if reverse { COMMAND_MOVE_A_REV } else { COMMAND_MOVE_A_FWD },
        Channel::Motor2 => if reverse { COMMAND_MOVE_B_REV } else { COMMAND_MOVE_B_FWD },
        Channel::All => if reverse { COMMAND_MOVE_ALL_REV } else { COMMAND_MOVE_ALL_FWD },
    }
}

/// The PWM byte for a power: `round(|power| * 255)`, held at 255.
pub open spec fn pwm_of(power: int) -> u8 {
    let p = scaled_round(power, PWM_MAX as int);
    if p > PWM_MAX as int {
        PWM_MAX
    } else {
        p as u8
    }
}

/// The write that sets `channel` to `power`: reverse exactly when the power is
/// negative, and the PWM byte of its magnitude.
pub open spec fn motor_write(channel: Channel, power: int) -> Transfer {
    Transfer::WriteByte { command: set_command(channel, power < 0), value: pwm_of(power) }
}

/// The byte for a flag.
pub open spec fn flag_value(state: bool) -> u8 {
    if state {
        COMMAND_VALUE_ON
    } else {
        COMMAND_VALUE_OFF
    }
}

/// The write that switches every motor off.
pub open spec fn all_off() -> Transfer {
    Transfer::WriteByte { command: COMMAND_ALL_OFF, value: 0 }
}

/// A 16-bit count, big-endian.
pub open spec fn be_bytes(value: int) -> (u8, u8) {
    ((value / 256) as u8, (value % 256) as u8)
}

/// The write that moves `channel` by `counts` encoder ticks: the magnitude
/// big-endian, the direction in the command, reverse when `counts` is negative.
pub open spec fn encoder_move_write(channel: Channel, counts: int) -> Transfer {
    Transfer::WriteBlock {
        command: move_command(channel, counts < 0),
        high: be_bytes(abs(counts)).0,
        low: be_bytes(abs(counts)).1,
    }
}

/// The signed PWM level that a motor reading reports: the magnitude byte,
/// negated for reverse, zero when the direction byte is neither.
pub open spec fn motor_level(direction: u8, magnitude: u8) -> int {
    if direction == COMMAND_VALUE_FWD {
        magnitude as int
    } else if direction == COMMAND_VALUE_REV {
        -(magnitude as int)
    } else {
        0
    }
}

/// Every PWM byte of a power whose magnitude is beyond a whole unit is 255.
pub proof fn lemma_pwm_saturates(power: int)
    requires
        abs(power) > FULL_SCALE,
    ensures
        pwm_of(power) == PWM_MAX,
{
    assert(abs(power) * 255 >= (FULL_SCALE as int + 1) * 255) by (nonlinear_arith)
        requires
            abs(power) > FULL_SCALE,
    ;
}

/// The PWM byte for `power`.
pub fn pwm_from_power(power: i32) -> (r: u8)
    ensures
        r == pwm_of(power as int),
{
    let p = round_scaled(magnitude(power), PWM_MAX as u32);
    if p > PWM_MAX as u64 {
        PWM_MAX
    } else {
        p as u8
    }
}

/// `input` as two bytes, most significant first.
pub fn u16_to_bytes(input: u16) -> (r: (u8, u8))
    ensures
        r == be_bytes(input as int),
{
    ((input / 256) as u8, (input % 256) as u8)
}

/// The board's identity: the high byte of the reply to `COMMAND_GET_ID`.
pub fn identity_of(word: u16) -> (r: u8)
    ensures
        r == word / 256,
{
    (word / 256) as u8
}

/// Whether the reply to `COMMAND_GET_ID` names a PicoBorg Reverse. A mismatch
/// is worth a diagnostic, not a refusal: compatible boards answer otherwise.
pub fn is_picoborg_rev(word: u16) -> (r: bool)
    ensures
        r == (word / 256 == I2C_ID_PICOBORG_REV),
{
    identity_of(word) == I2C_ID_PICOBORG_REV
}

/// Decodes a motor reading: byte 0 is the direction, byte 1 the PWM rate.
/// The result is the signed PWM level; `None` when the reply is too short.
pub fn motor_level_of(reply: &[u8]) -> (r: Option<i16>)
    ensures
        r is Some <==> reply@.len() >= 2,
        r is Some ==> r->0 == motor_level(reply@[0], reply@[1]),
{
    if reply.len() < 2 {
        return None;
    }
    let direction = reply[0];
    let pwm = reply[1] as i16;
    if direction == COMMAND_VALUE_FWD {
        Some(pwm)
    } else if direction == COMMAND_VALUE_REV {
        Some(-pwm)
    } else {
        Some(0)
    }
}

/// Decodes a flag reading: on exactly when byte 0 is `COMMAND_VALUE_ON`;
/// `None` when the reply is empty.
pub fn flag_of(reply: &[u8]) -> (r: Option<bool>)
    ensures
        r is Some <==> reply@.len() >= 1,
        r is Some ==> r->0 == (reply@[0] == COMMAND_VALUE_ON),
{
    if reply.len() < 1 {
        None
    } else {
        Some(reply[0] == COMMAND_VALUE_ON)
    }
}

/// Decodes the encoder-mode drive limit: the PWM byte 0; `None` when the
/// reply is empty.
pub fn encoder_speed_of(reply: &[u8]) -> (r: Option<u8>)
    ensures
        r is Some <==> reply@.len() >= 1,
        r is Some ==> r->0 == reply@[0],
{
    if reply.len() < 1 {
        None
    } else {
        Some(reply[0])
    }
}

/// The driver of one board: the transfers that are due, oldest first.
pub struct PicoBorgRev {
    pending: Vec<Transfer>,
}

impl View for PicoBorgRev {
    type V = Seq<Transfer>;

    closed spec fn view(&self) -> Seq<Transfer> {
        self.pending@
    }
}

impl PicoBorgRev {
    /// A driver whose first transfer reads the board's identity.
    pub fn new() -> (r: PicoBorgRev)
        ensures
            r@ == seq![Transfer::ReadWord { command: COMMAND_GET_ID }],
    {
        let mut pending = Vec::new();
        pending.push(Transfer::ReadWord { command: COMMAND_GET_ID });
        PicoBorgRev { pending }
    }

    /// Hands over the transfers that are due, in order, and forgets them.
    pub fn take_pending(&mut self) -> (r: Vec<Transfer>)
        ensures
            r@ == old(self)@,
            final(self)@ == Seq::<Transfer>::empty(),
    {
        let mut taken = Vec::new();
        std::mem::swap(&mut taken, &mut self.pending);
        taken
    }

    fn queue(&mut self, transfer: Transfer)
        ensures
            final(self)@ == old(self)@.push(transfer),
    {
        self.pending.push(transfer);
    }

    /// Sets the drive level of `channel`: one write, reverse exactly when
    /// `power` is negative, with PWM byte `round(|power| * 255)` held at 255.
    /// Returns that byte.
    pub fn set_motor(&mut self, channel: Channel, power: i32) -> (pwm: u8)
        ensures
            final(self)@ == old(self)@.push(motor_write(channel, power as int)),
            pwm == pwm_of(power as int),
            abs(power as int) >= FULL_SCALE ==> pwm == PWM_MAX,
    {
        let pwm = pwm_from_power(power);
        let command = match channel {
            Channel::Motor1 => if power < 0 { COMMAND_SET_A_REV } else { COMMAND_SET_A_FWD },
            Channel::Motor2 => if power < 0 { COMMAND_SET_B_REV } else { COMMAND_SET_B_FWD },
            Channel::All => if power < 0 { COMMAND_SET_ALL_REV } else { COMMAND_SET_ALL_FWD },
        };
        self.queue(Transfer::WriteByte { command, value: pwm });
        proof {
            if abs(power as int) > FULL_SCALE {
                lemma_pwm_saturates(power as int);
            }
        }
        pwm
    }

    /// Sets the drive level of motor 1.
    pub fn set_motor_1(&mut self, power: i32) -> (pwm: u8)
        ensures
            final(self)@ == old(self)@.push(motor_write(Channel::Motor1, power as int)),
            pwm == pwm_of(power as int),
    {
        self.set_motor(Channel::Motor1, power)
    }

    /// Sets the drive level of motor 2.
    pub fn set_motor_2(&mut self, power: i32) -> (pwm: u8)
        ensures
            final(self)@ == old(self)@.push(motor_write(Channel::Motor2, power as int)),
            pwm == pwm_of(power as int),
    {
        self.set_motor(Channel::Motor2, power)
    }

    /// Sets the drive level of both motors with one write.
    pub fn set_motors(&mut self, power: i32) -> (pwm: u8)
        ensures
            final(self)@ == old(self)@.push(motor_write(Channel::All, power as int)),
            pwm == pwm_of(power as int),
    {
        self.set_motor(Channel::All, power)
    }

    /// Switches every motor off.
    pub fn motors_off(&mut self)
        ensures
            final(self)@ == old(self)@.push(all_off()),
    {
        self.queue(Transfer::WriteByte { command: COMMAND_ALL_OFF, value: 0 });
    }

    /// The shutdown path: whatever was still due is dropped, and exactly one
    /// write switches every motor off.
    pub fn teardown(&mut self)
        ensures
            final(self)@ == seq![all_off()],
    {
        self.pending = Vec::new();
        self.motors_off();
    }

    /// Reads the drive level of motor 1; decode the reply with `motor_level_of`.
    pub fn get_motor_1(&mut self)
        ensures
            final(self)@ == old(self)@.push(Transfer::ReadBlock { command: COMMAND_GET_A }),
    {
        self.queue(Transfer::ReadBlock { command: COMMAND_GET_A });
    }

    /// Reads the drive level of motor 2; decode the reply with `motor_level_of`.
    pub fn get_motor_2(&mut self)
        ensures
            final(self)@ == old(self)@.push(Transfer::ReadBlock { command: COMMAND_GET_B }),
    {
        self.queue(Transfer::ReadBlock { command: COMMAND_GET_B });
    }

    fn set_flag(&mut self, command: u8, state: bool)
        ensures
            final(self)@ == old(self)@.push(
                Transfer::WriteByte { command, value: flag_value(state) },
            ),
    {
        let value = if state {
            COMMAND_VALUE_ON
        } else {
            COMMAND_VALUE_OFF
        };
        self.queue(Transfer::WriteByte { command, value });
    }

    /// Switches the onboard LED on or off.
    pub fn set_led(&mut self, state: bool)
        ensures
            final(self)@ == old(self)@.push(
                Transfer::WriteByte { command: COMMAND_SET_LED, value: flag_value(state) },
            ),
    {
        self.set_flag(COMMAND_SET_LED, state);
    }

    /// Reads the onboard LED; decode the reply with `flag_of`.
    pub fn get_led(&mut self)
        ensures
            final(self)@ == old(self)@.push(Transfer::ReadBlock { command: COMMAND_GET_LED }),
    {
        self.queue(Transfer::ReadBlock { command: COMMAND_GET_LED });
    }

    /// Resets the EPO latch. Nothing here calls it on its own: clearing a
    /// tripped safety latch is the caller's decision.
    pub fn reset_epo(&mut self)
        ensures
            final(self)@ == old(self)@.push(
                Transfer::WriteByte { command: COMMAND_RESET_EPO, value: 0 },
            ),
    {
        self.queue(Transfer::WriteByte { command: COMMAND_RESET_EPO, value: 0 });
    }

    /// Reads the EPO latch (tripped when on); decode the reply with `flag_of`.
    pub fn get_epo(&mut self)
        ensures
            final(self)@ == old(self)@.push(Transfer::ReadBlock { command: COMMAND_GET_EPO }),
    {
        self.queue(Transfer::ReadBlock { command: COMMAND_GET_EPO });
    }

    /// Makes the board ignore the EPO latch, or use it.
    pub fn set_epo_ignore(&mut self, state: bool)
        ensures
            final(self)@ == old(self)@.push(
                Transfer::WriteByte { command: COMMAND_SET_EPO_IGNORE, value: flag_value(state) },
            ),
    {
        self.set_flag(COMMAND_SET_EPO_IGNORE, state);
    }

    /// Reads the EPO ignore flag; decode the reply with `flag_of`.
    pub fn get_epo_ignore(&mut self)
        ensures
            final(self)@ == old(self)@.push(
                Transfer::ReadBlock { command: COMMAND_GET_EPO_IGNORE },
            ),
    {
        self.queue(Transfer::ReadBlock { command: COMMAND_GET_EPO_IGNORE });
    }

    /// Enables or disables the communications failsafe.
    pub fn set_comms_failsafe(&mut self, state: bool)
        ensures
            final(self)@ == old(self)@.push(
                Transfer::WriteByte { command: COMMAND_SET_FAILSAFE, value: flag_value(state) },
            ),
    {
        self.set_flag(COMMAND_SET_FAILSAFE, state);
    }

    /// Reads the communications failsafe flag; decode the reply with `flag_of`.
    pub fn get_comms_failsafe(&mut self)
        ensures
            final(self)@ == old(self)@.push(Transfer::ReadBlock { command: COMMAND_GET_FAILSAFE }),
    {
        self.queue(Transfer::ReadBlock { command: COMMAND_GET_FAILSAFE });
    }

    /// Reads the drive fault flag; decode the reply with `flag_of`.
    pub fn get_drive_fault(&mut self)
        ensures
            final(self)@ == old(self)@.push(
                Transfer::ReadBlock { command: COMMAND_GET_DRIVE_FAULT },
            ),
    {
        self.queue(Transfer::ReadBlock { command: COMMAND_GET_DRIVE_FAULT });
    }

    /// Switches the encoder move mode on or off.
    pub fn set_encoder_move_mode(&mut self, state: bool)
        ensures
            final(self)@ == old(self)@.push(
                Transfer::WriteByte { command: COMMAND_SET_ENC_MODE, value: flag_value(state) },
            ),
    {
        self.set_flag(COMMAND_SET_ENC_MODE, state);
    }

    /// Reads the encoder move mode; decode the reply with `flag_of`.
    pub fn get_encoder_move_mode(&mut self)
        ensures
            final(self)@ == old(self)@.push(Transfer::ReadBlock { command: COMMAND_GET_ENC_MODE }),
    {
        self.queue(Transfer::ReadBlock { command: COMMAND_GET_ENC_MODE });
    }

    /// Moves `channel` by `counts` encoder ticks, reverse when negative.
    pub fn encoder_move(&mut self, channel: Channel, counts: i16)
        ensures
            final(self)@ == old(self)@.push(encoder_move_write(channel, counts as int)),
    {
        let reverse = counts < 0;
        let ticks: u16 = if reverse {
            (-(counts as i32)) as u16
        } else {
            counts as u16
        };
        let (high, low) = u16_to_bytes(ticks);
        let command = match channel {
            Channel::Motor1 => if reverse { COMMAND_MOVE_A_REV } else { COMMAND_MOVE_A_FWD },
            Channel::Motor2 => if reverse { COMMAND_MOVE_B_REV } else { COMMAND_MOVE_B_FWD },
            Channel::All => if reverse { COMMAND_MOVE_ALL_REV } else { COMMAND_MOVE_ALL_FWD },
        };
        self.queue(Transfer::WriteBlock { command, high, low });
    }

    /// Moves motor 1 by `counts` encoder ticks.
    pub fn encoder_move_motor_1(&mut self, counts: i16)
        ensures
            final(self)@ == old(self)@.push(encoder_move_write(Channel::Motor1, counts as int)),
    {
        self.encoder_move(Channel::Motor1, counts);
    }

    /// Moves motor 2 by `counts` encoder ticks.
    pub fn encoder_move_motor_2(&mut self, counts: i16)
        ensures
            final(self)@ == old(self)@.push(encoder_move_write(Channel::Motor2, counts as int)),
    {
        self.encoder_move(Channel::Motor2, counts);
    }

    /// Moves both motors by `counts` encoder ticks.
    pub fn encoder_move_motors(&mut self, counts: i16)
        ensures
            final(self)@ == old(self)@.push(encoder_move_write(Channel::All, counts as int)),
    {
        self.encoder_move(Channel::All, counts);
    }

    /// Reads whether an encoder move is still running; decode the reply with
    /// `flag_of`.
    pub fn is_encoder_moving(&mut self)
        ensures
            final(self)@ == old(self)@.push(
                Transfer::ReadBlock { command: COMMAND_GET_ENC_MOVING },
            ),
    {
        self.queue(Transfer::ReadBlock { command: COMMAND_GET_ENC_MOVING });
    }

    /// Sets the drive limit for encoder moves, from 0 to `FULL_SCALE`: the PWM
    /// byte of the power, and 0 for a negative power.
    pub fn set_encoder_speed(&mut self, power: i32) -> (pwm: u8)
        ensures
            pwm == (if power < 0 { 0 } else { pwm_of(power as int) }),
            final(self)@ == old(self)@.push(
                Transfer::WriteByte { command: COMMAND_SET_ENC_SPEED, value: pwm },
            ),
    {
        let pwm = if power < 0 {
            0
        } else {
            pwm_from_power(power)
        };
        self.queue(Transfer::WriteByte { command: COMMAND_SET_ENC_SPEED, value: pwm });
        pwm
    }

    /// Reads the drive limit for encoder moves; decode the reply with
    /// `encoder_speed_of`.
    pub fn get_encoder_speed(&mut self)
        ensures
            final(self)@ == old(self)@.push(Transfer::ReadBlock { command: COMMAND_GET_ENC_SPEED }),
    {
        self.queue(Transfer::ReadBlock { command: COMMAND_GET_ENC_SPEED });
    }
}

/// The interval between two polls of `is_encoder_moving` while waiting.
pub const ENCODER_POLL_MS: u64 = 100;

/// What the caller of an encoder wait has just learned.
#[derive(Clone, Copy, Debug, PartialEq, Eq, Structural)]
pub enum WaitEvent {
    /// The reply to `is_encoder_moving`.
    Moving(bool),
    /// A sleep has ended; `elapsed_ms` have passed since the wait began.
    Slept { elapsed_ms: u64 },
}

/// What the caller of an encoder wait does next.
#[derive(Clone, Copy, Debug, PartialEq, Eq, Structural)]
pub enum WaitAction {
    /// Ask `is_encoder_moving`.
    Poll,
    /// Sleep for `ms` milliseconds.
    Sleep { ms: u64 },
    /// Stop waiting: `finished` when the motors stopped, not when time ran out.
    Finish { finished: bool },
}

/// The decisions of `wait_while_encoder_moving`: poll, and while the motors
/// are moving sleep `ENCODER_POLL_MS` and poll again, until they stop or more
/// than the timeout has passed.
pub struct EncoderWait {
    pub timeout_ms: u64,
}

impl EncoderWait {
    /// The first action of a wait: a poll.
    pub fn start(&self) -> (r: WaitAction)
        ensures
            r == WaitAction::Poll,
    {
        WaitAction::Poll
    }

    /// The action after `event`. The wait ends finished exactly when the
    /// motors are reported still, and timed out exactly when a sleep ends
    /// with more than the timeout elapsed, so never before the timeout.
    pub fn step(&self, event: WaitEvent) -> (r: WaitAction)
        ensures
            event == WaitEvent::Moving(false) ==> r == (WaitAction::Finish { finished: true }),
            event == WaitEvent::Moving(true) ==> r == (WaitAction::Sleep { ms: ENCODER_POLL_MS }),
            (event is Slept) ==> r == (if event->elapsed_ms > self.timeout_ms {
                WaitAction::Finish { finished: false }
            } else {
                WaitAction::Poll
            }),
    {
        match event {
            WaitEvent::Moving(moving) => {
                if moving {
                    WaitAction::Sleep { ms: ENCODER_POLL_MS }
                } else {
                    WaitAction::Finish { finished: true }
                }
            },
            WaitEvent::Slept { elapsed_ms } => {
                if elapsed_ms > self.timeout_ms {
                    WaitAction::Finish { finished: false }
                } else {
                    WaitAction::Poll
                }
            },
        }
    }
}

/// `-speed`, held at `i32::MAX`: the two give the same write.
fn negated(speed: i32) -> (r: i32)
    ensures
        forall|c: Channel| motor_write(c, r as int) == motor_write(c, -(speed as int)),
{
    if speed == i32::MIN {
        proof {
            lemma_pwm_saturates(i32::MAX as int);
            lemma_pwm_saturates(-(speed as int));
        }
        i32::MAX
    } else {
        -speed
    }
}

impl Robot for PicoBorgRev {
    fn backward(&mut self, speed: i32)
        ensures
            final(self)@ == old(self)@.push(motor_write(Channel::All, -(speed as int))),
    {
        self.set_motors(negated(speed));
    }

    fn forward(&mut self, speed: i32)
        ensures
            final(self)@ == old(self)@.push(motor_write(Channel::All, speed as int)),
    {
        self.set_motors(speed);
    }

    fn left(&mut self, speed: i32)
        ensures
            final(self)@ == old(self)@.push(motor_write(Channel::Motor1, speed as int)).push(
                motor_write(Channel::Motor2, -(speed as int)),
            ),
    {
        self.set_motor_1(speed);
        self.set_motor_2(negated(speed));
    }

    fn right(&mut self, speed: i32)
        ensures
            final(self)@ == old(self)@.push(motor_write(Channel::Motor1, -(speed as int))).push(
                motor_write(Channel::Motor2, speed as int),
            ),
    {
        self.set_motor_1(negated(speed));
        self.set_motor_2(speed);
    }

    /// The board keeps no record of the current directions: nothing is sent.
    fn reverse(&mut self)
        ensures
            final(self)@ == old(self)@,
    {
    }

    fn stop(&mut self)
        ensures
            final(self)@ == old(self)@.push(motor_write(Channel::All, 0)),
    {
        self.set_motors(0);
    }
}

impl Led for PicoBorgRev {
    fn led_on(&mut self)
        ensures
            final(self)@ == old(self)@.push(
                Transfer::WriteByte { command: COMMAND_SET_LED, value: COMMAND_VALUE_ON },
            ),
    {
        self.set_led(true);
    }

    fn led_off(&mut self)
        ensures
            final(self)@ == old(self)@.push(
                Transfer::WriteByte { command: COMMAND_SET_LED, value: COMMAND_VALUE_OFF },
            ),
    {
        self.set_led(false);
    }
}

} // verus!
