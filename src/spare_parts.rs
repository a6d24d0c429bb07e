//! The devices that came up at start, and the capability calls on them.
//!
//! Each device is tried on its own: the assembly holds motion when the
//! controller board is present, and an indicator when the LED strip or the
//! board is. One board serves both capabilities; the indicator names it by a
//! tag rather than holding a second handle.

use vstd::prelude::*;
use crate::blinkt::{frame_bits, recoloured, Blinkt, Pixel};
use crate::picoborg_rev::{
    all_off, flag_value, motor_write, Channel, PicoBorgRev, Transfer, COMMAND_SET_LED,
    COMMAND_VALUE_OFF, COMMAND_VALUE_ON,
};
use crate::robot_server::Call;
use crate::robot_traits::{Led, Robot};

verus! {

/// The device behind the indicator.
pub enum Indicator {
    /// The onboard LED of the controller board in `SpareParts::robot`.
    Board,
    /// The LED strip.
    Strip(Blinkt),
}

/// What the owner of the hardware does, in order.
#[derive(Debug, PartialEq, Eq)]
pub enum Effect {
    /// One exchange with the controller board.
    Bus(Transfer),
    /// Clock out a frame on the strip: the data level at each pulse.
    Frame(Vec<bool>),
    /// Wait `ms` milliseconds.
    Pause { ms: u64 },
}

/// The model of an `Effect`.
pub enum Step {
    Bus(Transfer),
    Frame(Seq<bool>),
    Pause(u64),
}

impl View for Effect {
    type V = Step;

    open spec fn view(&self) -> Step {
        match self {
            Effect::Bus(t) => Step::Bus(*t),
            Effect::Frame(f) => Step::Frame(f@),
            Effect::Pause { ms } => Step::Pause(*ms),
        }
    }
}

/// The models of `effects`, in order.
pub open spec fn steps(effects: Seq<Effect>) -> Seq<Step> {
    effects.map_values(|e: Effect| e@)
}

/// The pixels of the strip, when the indicator is the strip.
pub open spec fn strip_of(led: Option<Indicator>) -> Option<Seq<Pixel>> {
    match led {
        Some(Indicator::Strip(b)) => Some(b@),
        _ => None,
    }
}

/// Whether the indicator is the board's LED.
pub open spec fn is_board(led: Option<Indicator>) -> bool {
    led == Some(Indicator::Board)
}

/// The devices of the robot.
pub struct SpareParts {
    /// The motion capability: the controller board, when it came up.
    pub robot: Option<PicoBorgRev>,
    /// The indicator capability.
    pub led: Option<Indicator>,
    /// The state last commanded to the board's onboard LED.
    pub board_led: bool,
}

/// The write that switches the board's LED.
pub open spec fn led_write(on: bool) -> Transfer {
    Transfer::WriteByte { command: COMMAND_SET_LED, value: flag_value(on) }
}

/// The effects of turning the indicator on or off.
pub open spec fn indicator_steps(led: Option<Indicator>, on: bool) -> Seq<Step> {
    match led {
        Some(Indicator::Board) => seq![Step::Bus(led_write(on))],
        Some(Indicator::Strip(b)) => seq![
            Step::Frame(
                frame_bits(if on { recoloured(b@, 255, 255, 255) } else { recoloured(b@, 0, 0, 0) }),
            ),
        ],
        None => Seq::empty(),
    }
}

/// The effects of `call` on `parts`. A call whose device is missing has none.
pub open spec fn call_steps(parts: SpareParts, call: Call) -> Seq<Step> {
    match call {
        Call::Forward { speed } => if parts.robot is Some {
            seq![Step::Bus(motor_write(Channel::All, speed as int))]
        } else {
            Seq::empty()
        },
        Call::Stop => if parts.robot is Some {
            seq![Step::Bus(motor_write(Channel::All, 0))]
        } else {
            Seq::empty()
        },
        Call::MotorsOff => if parts.robot is Some {
            seq![Step::Bus(all_off())]
        } else {
            Seq::empty()
        },
        Call::LedOn => indicator_steps(parts.led, true),
        Call::LedOff => indicator_steps(parts.led, false),
        Call::ToggleBoardLed => if parts.robot is Some {
            seq![Step::Bus(led_write(!parts.board_led))]
        } else {
            Seq::empty()
        },
        Call::Pause { ms } => seq![Step::Pause(ms)],
    }
}

/// The effects of the shutdown path: exactly one write that switches every
/// motor off when the board is present, and a dark frame when the strip is.
pub open spec fn teardown_steps(parts: SpareParts) -> Seq<Step> {
    (if parts.robot is Some {
        seq![Step::Bus(all_off())]
    } else {
        Seq::<Step>::empty()
    }) + match strip_of(parts.led) {
        Some(p) => seq![Step::Frame(frame_bits(recoloured(p, 0, 0, 0)))],
        None => Seq::<Step>::empty(),
    }
}

/// How many of `s` switch every motor off.
pub open spec fn count_all_off(s: Seq<Step>) -> nat
    decreases s.len(),
{
    if s.len() == 0 {
        0
    } else {
        count_all_off(s.drop_last()) + if s.last() == Step::Bus(all_off()) {
            1nat
        } else {
            0nat
        }
    }
}

/// Whatever state the devices were left in, and whether or not earlier
/// effects failed, the shutdown path switches the motors off exactly once
/// when the board is present, and never when it is not.
pub proof fn lemma_teardown_switches_off_once(parts: SpareParts)
    ensures
        count_all_off(teardown_steps(parts)) == (if parts.robot is Some { 1nat } else { 0nat }),
{
    let s = teardown_steps(parts);
    let head = if parts.robot is Some {
        seq![Step::Bus(all_off())]
    } else {
        Seq::<Step>::empty()
    };
    assert(count_all_off(Seq::<Step>::empty()) == 0);
    if parts.robot is Some {
        assert(head.drop_last() =~= Seq::<Step>::empty());
        assert(count_all_off(head) == 1);
    }
    match strip_of(parts.led) {
        Some(p) => {
            assert(s.drop_last() =~= head);
            assert(s.last() != Step::Bus(all_off()));
        },
        None => {
            assert(s =~= head);
        },
    }
}

/// Whether the strip, if it is the indicator, has no frame due.
pub open spec fn strip_idle(led: Option<Indicator>) -> bool {
    match led {
        Some(Indicator::Strip(b)) => b.frames().len() == 0,
        _ => true,
    }
}

/// The frames that were due on the strip, as effects.
fn frame_effects(frames: Vec<Vec<bool>>) -> (r: Vec<Effect>)
    ensures
        steps(r@) == frames@.map_values(|f: Vec<bool>| Step::Frame(f@)),
{
    let ghost all = frames@.map_values(|f: Vec<bool>| Step::Frame(f@));
    let mut rest = frames;
    let mut effects: Vec<Effect> = Vec::new();
    proof {
        assert(steps(effects@) =~= all.take(0));
        assert(rest@.map_values(|f: Vec<bool>| Step::Frame(f@)) =~= all.skip(0));
    }
    while rest.len() > 0
        invariant
            steps(effects@) + rest@.map_values(|f: Vec<bool>| Step::Frame(f@)) == all,
        decreases rest@.len(),
    {
        let ghost before = rest@;
        let ghost done = effects@;
        let frame = rest.remove(0);
        effects.push(Effect::Frame(frame));
        proof {
            assert(steps(effects@) =~= steps(done).push(Step::Frame(before[0]@)));
            assert(before.map_values(|f: Vec<bool>| Step::Frame(f@)) =~= seq![
                Step::Frame(before[0]@),
            ] + rest@.map_values(|f: Vec<bool>| Step::Frame(f@)));
            assert(steps(effects@) + rest@.map_values(|f: Vec<bool>| Step::Frame(f@)) =~= all);
        }
    }
    proof {
        assert(rest@.map_values(|f: Vec<bool>| Step::Frame(f@)) =~= Seq::<Step>::empty());
        assert(steps(effects@) =~= all);
    }
    effects
}

/// The transfers that were due on the board, as effects.
fn bus_effects(transfers: Vec<Transfer>) -> (r: Vec<Effect>)
    ensures
        steps(r@) == transfers@.map_values(|t: Transfer| Step::Bus(t)),
{
    let mut effects: Vec<Effect> = Vec::new();
    let mut i: usize = 0;
    while i < transfers.len()
        invariant
            i <= transfers@.len(),
            steps(effects@) == transfers@.take(i as int).map_values(|t: Transfer| Step::Bus(t)),
        decreases transfers@.len() - i,
    {
        let ghost before = effects@;
        effects.push(Effect::Bus(transfers[i]));
        proof {
            assert(steps(effects@) =~= steps(before).push(Step::Bus(transfers@[i as int])));
            assert(transfers@.take(i as int + 1).map_values(|t: Transfer| Step::Bus(t))
                =~= transfers@.take(i as int).map_values(|t: Transfer| Step::Bus(t)).push(
                Step::Bus(transfers@[i as int]),
            ));
        }
        i = i + 1;
    }
    proof {
        assert(transfers@.take(i as int) =~= transfers@);
    }
    effects
}

impl SpareParts {
    /// The board, when present, has nothing due between calls; an indicator
    /// tagged as the board has the board behind it.
    pub open spec fn wf(&self) -> bool {
        &&& (self.robot is Some ==> self.robot->0@ == Seq::<Transfer>::empty())
        &&& (is_board(self.led) ==> self.robot is Some)
        &&& strip_idle(self.led)
    }

    /// Assembles what came up: motion from the board, the indicator from the
    /// strip or, without one, from the board. Transfers still due on the
    /// board, and frames still due on the strip, are dropped.
    pub fn new(robot: Option<PicoBorgRev>, strip: Option<Blinkt>) -> (r: SpareParts)
        ensures
            r.wf(),
            r.robot is Some <==> robot is Some,
            r.board_led == false,
            strip is Some ==> strip_of(r.led) == Some(strip->0@),
            strip is None ==> (r.led is Some <==> robot is Some) && (r.led is Some ==> is_board(
                r.led,
            )),
    {
        let robot = match robot {
            Some(mut board) => {
                let _ = board.take_pending();
                Some(board)
            },
            None => None,
        };
        let led = match strip {
            Some(mut b) => {
                let _ = b.take_frames();
                Some(Indicator::Strip(b))
            },
            None => if robot.is_some() {
                Some(Indicator::Board)
            } else {
                None
            },
        };
        SpareParts { robot, led, board_led: false }
    }

    /// Whether motion is present.
    pub fn has_motion(&self) -> (r: bool)
        ensures
            r == self.robot is Some,
    {
        self.robot.is_some()
    }

    /// Whether an indicator is present.
    pub fn has_indicator(&self) -> (r: bool)
        ensures
            r == self.led is Some,
    {
        self.led.is_some()
    }

    fn switch_indicator(&mut self, on: bool) -> (r: Vec<Effect>)
        requires
            old(self).wf(),
        ensures
            final(self).wf(),
            steps(r@) == indicator_steps(old(self).led, on),
            final(self).robot is Some <==> old(self).robot is Some,
            is_board(final(self).led) == is_board(old(self).led),
            final(self).led is Some <==> old(self).led is Some,
            strip_of(final(self).led) == match strip_of(old(self).led) {
                Some(p) => Some(if on { recoloured(p, 255, 255, 255) } else { recoloured(p, 0, 0, 0) }),
                None => None,
            },
            final(self).board_led == (if is_board(old(self).led) { on } else { old(self).board_led }),
    {
        let mut effects: Vec<Effect> = Vec::new();
        match &mut self.led {
            Some(Indicator::Strip(strip)) => {
                proof {
                    assert(strip.frames() =~= Seq::<Seq<bool>>::empty());
                }
                if on {
                    strip.led_on();
                } else {
                    strip.led_off();
                }
                let ghost bits = frame_bits(strip@);
                let frames = strip.take_frames();
                proof {
                    assert(frames@.map_values(|f: Vec<bool>| f@) =~= seq![bits]);
                    assert(frames@.map_values(|f: Vec<bool>| f@)[0] == frames@[0]@);
                    assert(frames@.map_values(|f: Vec<bool>| Step::Frame(f@)) =~= seq![
                        Step::Frame(bits),
                    ]);
                }
                effects = frame_effects(frames);
            },
            Some(Indicator::Board) => {
                match &mut self.robot {
                    Some(board) => {
                        if on {
                            board.led_on();
                        } else {
                            board.led_off();
                        }
                        effects = bus_effects(board.take_pending());
                    },
                    None => {},
                }
                self.board_led = on;
            },
            None => {},
        }
        proof {
            assert(steps(effects@) =~= indicator_steps(old(self).led, on));
        }
        effects
    }

    /// Makes `call` on the device that serves it, and returns what the
    /// hardware is to do. A call whose device is missing does nothing.
    pub fn apply(&mut self, call: Call) -> (r: Vec<Effect>)
        requires
            old(self).wf(),
        ensures
            final(self).wf(),
            steps(r@) == call_steps(*old(self), call),
            final(self).robot is Some <==> old(self).robot is Some,
            is_board(final(self).led) == is_board(old(self).led),
            final(self).led is Some <==> old(self).led is Some,
            strip_of(final(self).led) == match (strip_of(old(self).led), call) {
                (Some(p), Call::LedOn) => Some(recoloured(p, 255, 255, 255)),
                (Some(p), Call::LedOff) => Some(recoloured(p, 0, 0, 0)),
                (other, _) => other,
            },
            final(self).board_led == match call {
                Call::LedOn => if is_board(old(self).led) { true } else { old(self).board_led },
                Call::LedOff => if is_board(old(self).led) { false } else { old(self).board_led },
                Call::ToggleBoardLed => if old(self).robot is Some {
                    !old(self).board_led
                } else {
                    old(self).board_led
                },
                _ => old(self).board_led,
            },
    {
        match call {
            Call::LedOn => self.switch_indicator(true),
            Call::LedOff => self.switch_indicator(false),
            Call::Pause { ms } => {
                let mut effects: Vec<Effect> = Vec::new();
                effects.push(Effect::Pause { ms });
                proof {
                    assert(steps(effects@) =~= call_steps(*old(self), call));
                }
                effects
            },
            _ => {
                let mut effects: Vec<Effect> = Vec::new();
                let lit = self.board_led;
                match &mut self.robot {
                    Some(board) => {
                        match call {
                            Call::Forward { speed } => board.forward(speed),
                            Call::Stop => board.stop(),
                            Call::MotorsOff => board.motors_off(),
                            Call::ToggleBoardLed => {
                                board.set_led(!lit);
                                self.board_led = !lit;
                            },
                            Call::LedOn | Call::LedOff | Call::Pause { .. } => {},
                        }
                        effects = bus_effects(board.take_pending());
                    },
                    None => {},
                }
                proof {
                    assert(steps(effects@) =~= call_steps(*old(self), call));
                }
                effects
            },
        }
    }

    /// The shutdown path: every motor off on the board with exactly one write,
    /// whatever came before, and the strip cleared and shown.
    pub fn teardown(&mut self) -> (r: Vec<Effect>)
        requires
            old(self).wf(),
        ensures
            final(self).wf(),
            steps(r@) == teardown_steps(*old(self)),
    {
        let mut effects: Vec<Effect> = Vec::new();
        match &mut self.robot {
            Some(board) => {
                board.teardown();
                effects = bus_effects(board.take_pending());
            },
            None => {},
        }
        let ghost first = steps(effects@);
        proof {
            if old(self).robot is Some {
                assert(first =~= seq![Step::Bus(all_off())]);
            } else {
                assert(first =~= Seq::<Step>::empty());
            }
        }
        match &mut self.led {
            Some(Indicator::Strip(strip)) => {
                strip.teardown();
                let ghost bits = frame_bits(strip@);
                let frames = strip.take_frames();
                proof {
                    assert(frames@.map_values(|f: Vec<bool>| f@) =~= seq![bits]);
                    assert(frames@.map_values(|f: Vec<bool>| f@)[0] == frames@[0]@);
                    assert(frames@.map_values(|f: Vec<bool>| Step::Frame(f@)) =~= seq![
                        Step::Frame(bits),
                    ]);
                }
                let mut shown = frame_effects(frames);
                let ghost before = effects@;
                let ghost added = shown@;
                effects.append(&mut shown);
                proof {
                    assert(effects@ =~= before + added);
                    assert(steps(effects@) =~= steps(before) + steps(added));
                    assert(steps(effects@) =~= first.push(Step::Frame(bits)));
                }
            },
            _ => {},
        }
        proof {
            assert(steps(effects@) =~= teardown_steps(*old(self)));
        }
        effects
    }
}

} // verus!
