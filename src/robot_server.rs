//! The request dispatcher: maps a request path to capability calls and the
//! text of the response, whatever devices are present.
//!
//! A path is split at each `/`; its first segment is empty, the second names
//! a group, the third a verb of that group. A path that names no group, a
//! verb that its group lacks, or a missing device gets a response that says
//! so, never an error: the serving loop goes on with the next request. What is
//! not recognised is named by its segments, printed as a list of strings is
//! (`["", "unknown", "x"]`).

use vstd::prelude::*;

verus! {

/// The separator of path segments.
pub const SLASH: char = '/';
/// The speed of `/robot/forward`: half of `FULL_SCALE`.
pub const FORWARD_SPEED: i32 = 500_000;
/// The power at which `/borg/set_motors` drives both motors: half of `FULL_SCALE`.
pub const DEMO_POWER: i32 = 500_000;
/// How long `/borg/set_motors` drives, in milliseconds.
pub const DEMO_DRIVE_MS: u64 = 10_000;
/// How long `/blinkt/strobe_led` keeps the light on, in milliseconds.
pub const STROBE_MS: u64 = 2_000;

/// The groups of verbs.
#[derive(Clone, Copy, Debug, PartialEq, Eq, Structural)]
pub enum Group {
    /// `robot`: motion.
    Robot,
    /// `led`: the indicator.
    Led,
    /// `blinkt`: the indicator.
    Blinkt,
    /// `borg`: the controller board itself.
    Borg,
}

/// The verbs of all groups.
#[derive(Clone, Copy, Debug, PartialEq, Eq, Structural)]
pub enum Verb {
    Forward,
    Stop,
    LedOn,
    LedOff,
    StrobeLed,
    ToggleLed,
    SetMotors,
    ClearMotors,
}

/// Where a path leads.
#[derive(Clone, Copy, Debug, PartialEq, Eq, Structural)]
pub enum Route {
    /// A verb of a group.
    Command(Group, Verb),
    /// A group, with no verb or one that it lacks.
    UnknownVerb(Group),
    /// No group.
    UnknownGroup,
}

/// One call on a capability, or a pause between two.
#[derive(Clone, Copy, Debug, PartialEq, Eq, Structural)]
pub enum Call {
    /// Motion: forward at `speed` (units of `FULL_SCALE`).
    Forward { speed: i32 },
    /// Motion: stop.
    Stop,
    /// Indicator: on.
    LedOn,
    /// Indicator: off.
    LedOff,
    /// The controller board: switch its onboard LED over.
    ToggleBoardLed,
    /// The controller board: every motor off.
    MotorsOff,
    /// Wait `ms` milliseconds.
    Pause { ms: u64 },
}

/// What a request asks for: the calls to make, in order, and the response.
#[derive(Debug, PartialEq, Eq)]
pub struct Reply {
    pub calls: Vec<Call>,
    pub text: String,
}

/// The segments of `s` between the `/` bytes, left to right; never empty.
pub open spec fn segments(s: Seq<char>) -> Seq<Seq<char>>
    decreases s.len(),
{
    if s.len() == 0 {
        seq![Seq::<char>::empty()]
    } else {
        let prev = segments(s.drop_last());
        if s.last() == SLASH {
            prev.push(Seq::<char>::empty())
        } else {
            prev.update(prev.len() - 1, prev.last().push(s.last()))
        }
    }
}

/// The group that a segment names.
pub open spec fn group_of(seg: Seq<char>) -> Option<Group> {
    if seg == "robot"@ {
        Some(Group::Robot)
    } else if seg == "led"@ {
        Some(Group::Led)
    } else if seg == "blinkt"@ {
        Some(Group::Blinkt)
    } else if seg == "borg"@ {
        Some(Group::Borg)
    } else {
        None
    }
}

/// The verb of `group` that a segment names.
pub open spec fn verb_of(group: Group, seg: Seq<char>) -> Option<Verb> {
    match group {
        Group::Robot => if seg == "forward"@ {
            Some(Verb::Forward)
        } else if seg == "stop"@ {
            Some(Verb::Stop)
        } else {
            None
        },
        Group::Led => if seg == "led_on"@ {
            Some(Verb::LedOn)
        } else if seg == "led_off"@ {
            Some(Verb::LedOff)
        } else {
            None
        },
        Group::Blinkt => if seg == "strobe_led"@ {
            Some(Verb::StrobeLed)
        } else {
            None
        },
        Group::Borg => if seg == "toggle_led"@ {
            Some(Verb::ToggleLed)
        } else if seg == "set_motors"@ {
            Some(Verb::SetMotors)
        } else if seg == "clear_motors"@ {
            Some(Verb::ClearMotors)
        } else {
            None
        },
    }
}

/// Where the path with bytes `path` leads.
pub open spec fn route_of(path: Seq<char>) -> Route {
    let segs = segments(path);
    if segs.len() < 2 || segs[0].len() != 0 {
        Route::UnknownGroup
    } else {
        match group_of(segs[1]) {
            None => Route::UnknownGroup,
            Some(group) => if segs.len() < 3 {
                Route::UnknownVerb(group)
            } else {
                match verb_of(group, segs[2]) {
                    Some(verb) => Route::Command(group, verb),
                    None => Route::UnknownVerb(group),
                }
            },
        }
    }
}

/// Whether a group works through motion (and so needs the controller board)
/// rather than through the indicator.
pub open spec fn uses_motion(group: Group) -> bool {
    group == Group::Robot || group == Group::Borg
}

/// The calls of a verb.
pub open spec fn calls_of(verb: Verb) -> Seq<Call> {
    match verb {
        Verb::Forward => seq![Call::Forward { speed: FORWARD_SPEED }],
        Verb::Stop => seq![Call::Stop],
        Verb::LedOn => seq![Call::LedOn],
        Verb::LedOff => seq![Call::LedOff],
        Verb::StrobeLed => seq![Call::LedOn, Call::Pause { ms: STROBE_MS }, Call::LedOff],
        Verb::ToggleLed => seq![Call::ToggleBoardLed],
        Verb::SetMotors => seq![
            Call::Forward { speed: DEMO_POWER },
            Call::Pause { ms: DEMO_DRIVE_MS },
            Call::MotorsOff,
        ],
        Verb::ClearMotors => seq![Call::MotorsOff],
    }
}

/// The response prefix of a group.
pub open spec fn tag_of(group: Group) -> Seq<char> {
    match group {
        Group::Robot => "[robot] "@,
        Group::Led => "[led] "@,
        Group::Blinkt => "[blinkt] "@,
        Group::Borg => "[borg] "@,
    }
}

/// What a group answers when its device is missing.
pub open spec fn unavailable_text(group: Group) -> Seq<char> {
    match group {
        Group::Robot => "[robot] Robot not available"@,
        Group::Led => "[led] LED not available"@,
        Group::Blinkt => "[blinkt] LED not available"@,
        Group::Borg => "[borg] PicoBorg Reverse not available"@,
    }
}

/// What a verb answers once its calls are made.
pub open spec fn done_text(verb: Verb) -> Seq<char> {
    match verb {
        Verb::Forward => "[robot] moving forward at 0.5"@,
        Verb::Stop => "[robot] stopping robot"@,
        Verb::LedOn => "[led] turning LED on"@,
        Verb::LedOff => "[led] turning LED off"@,
        Verb::StrobeLed => "[blinkt] strobing LED"@,
        Verb::ToggleLed => "[borg] toggling LED"@,
        Verb::SetMotors => "[borg] driving motors"@,
        Verb::ClearMotors => "[borg] stopping motors"@,
    }
}

/// How `Debug` prints a string: quoted, with its special characters escaped.
pub uninterp spec fn debug_of(s: Seq<char>) -> Seq<char>;

/// `items` separated by `, `.
pub open spec fn joined(items: Seq<Seq<char>>) -> Seq<char>
    decreases items.len(),
{
    if items.len() == 0 {
        Seq::empty()
    } else if items.len() == 1 {
        items[0]
    } else {
        joined(items.drop_last()) + ", "@ + items.last()
    }
}

/// `items` separated by `, ` between brackets.
pub open spec fn bracketed(items: Seq<Seq<char>>) -> Seq<char> {
    "["@ + joined(items) + "]"@
}

/// The segments of a path as a list is printed: each one quoted and escaped,
/// separated by `, `, between brackets.
pub open spec fn listed(segs: Seq<Seq<char>>) -> Seq<char> {
    bracketed(segs.map_values(|seg: Seq<char>| debug_of(seg)))
}

/// The reply to `path` when motion and the indicator are present or not:
/// a missing device is reported before the verb is looked at, as the group
/// cannot serve any. What is not recognised is named by its segments: all of
/// them for a group, those from the group on for a verb.
pub open spec fn reply_of(path: Seq<char>, motion: bool, indicator: bool) -> (
    Seq<Call>,
    Seq<char>,
) {
    match route_of(path) {
        Route::UnknownGroup => (Seq::empty(), "Request not recognised: "@ + listed(segments(path))),
        Route::UnknownVerb(group) => if (if uses_motion(group) { motion } else { indicator }) {
            (
                Seq::empty(),
                tag_of(group) + "Request not recognised: "@ + listed(segments(path).skip(1)),
            )
        } else {
            (Seq::empty(), unavailable_text(group))
        },
        Route::Command(group, verb) => if (if uses_motion(group) { motion } else { indicator }) {
            (calls_of(verb), done_text(verb))
        } else {
            (Seq::empty(), unavailable_text(group))
        },
    }
}

/// `segments` never returns an empty sequence.
pub proof fn lemma_segments_len(s: Seq<char>)
    ensures
        segments(s).len() >= 1,
    decreases s.len(),
{
    if s.len() > 0 {
        lemma_segments_len(s.drop_last());
    }
}

/// Splits `path` at each `/`.
fn split_path<'a>(path: &'a str) -> (r: Vec<&'a str>)
    ensures
        r@.map_values(|seg: &str| seg@) == segments(path@),
{
    let n = path.unicode_len();
    let mut done: Vec<&'a str> = Vec::new();
    let mut start: usize = 0;
    let mut i: usize = 0;
    proof {
        assert(path@.take(0) =~= Seq::<char>::empty());
        assert(done@.map_values(|seg: &str| seg@).push(path@.subrange(0, 0)) =~= seq![
            Seq::<char>::empty(),
        ]);
    }
    while i < n
        invariant
            n == path@.len(),
            start <= i <= n,
            done@.map_values(|seg: &str| seg@).push(path@.subrange(start as int, i as int))
                == segments(path@.take(i as int)),
        decreases n - i,
    {
        let ghost before = done@.map_values(|seg: &str| seg@);
        let c = path.get_char(i);
        proof {
            assert(path@.take(i as int + 1).drop_last() =~= path@.take(i as int));
            assert(path@.take(i as int + 1).last() == c);
        }
        if c == SLASH {
            let seg = path.substring_char(start, i);
            done.push(seg);
            start = i + 1;
            proof {
                assert(done@.map_values(|seg: &str| seg@) =~= before.push(seg@));
                assert(path@.subrange(start as int, i as int + 1) =~= Seq::<char>::empty());
            }
        } else {
            proof {
                assert(path@.subrange(start as int, i as int + 1) =~= path@.subrange(
                    start as int,
                    i as int,
                ).push(c));
                assert(before.push(path@.subrange(start as int, i as int)).update(
                    before.len() as int,
                    path@.subrange(start as int, i as int).push(c),
                ) =~= before.push(path@.subrange(start as int, i as int + 1)));
            }
        }
        i = i + 1;
    }
    let ghost before = done@.map_values(|seg: &str| seg@);
    let last = path.substring_char(start, n);
    done.push(last);
    proof {
        assert(path@.take(n as int) =~= path@);
        assert(done@.map_values(|seg: &str| seg@) =~= before.push(last@));
    }
    done
}

/// Whether two strings are equal.
fn str_eq(a: &str, b: &str) -> (r: bool)
    ensures
        r == (a@ == b@),
{
    let n = a.unicode_len();
    if n != b.unicode_len() {
        return false;
    }
    let mut i: usize = 0;
    while i < n
        invariant
            i <= n,
            n == a@.len(),
            a@.len() == b@.len(),
            forall|k: int| 0 <= k < i ==> a@[k] == b@[k],
        decreases n - i,
    {
        if a.get_char(i) != b.get_char(i) {
            return false;
        }
        i = i + 1;
    }
    proof {
        assert(a@ =~= b@);
    }
    true
}

/// Relies on `Debug` for `str`, through `format!("{:?}")`: the string quoted
/// and escaped, which depends on its characters alone.
#[verifier::external_body]
fn debug_str(s: &str) -> (r: String)
    ensures
        r@ == debug_of(s@),
{
    format!("{:?}", s)
}

/// The printed forms of `segs[from..]`.
fn debug_segments(segs: &Vec<&str>, from: usize) -> (r: Vec<String>)
    requires
        from <= segs@.len(),
    ensures
        r@.map_values(|t: String| t@) == segs@.skip(from as int).map_values(
            |seg: &str| debug_of(seg@),
        ),
{
    let mut out: Vec<String> = Vec::new();
    let mut i: usize = from;
    while i < segs.len()
        invariant
            from <= i <= segs@.len(),
            out@.map_values(|t: String| t@) == segs@.subrange(from as int, i as int).map_values(
                |seg: &str| debug_of(seg@),
            ),
        decreases segs@.len() - i,
    {
        let ghost before = out@;
        out.push(debug_str(segs[i]));
        proof {
            assert(out@.map_values(|t: String| t@) =~= before.map_values(|t: String| t@).push(
                debug_of(segs@[i as int]@),
            ));
            assert(segs@.subrange(from as int, i as int + 1).map_values(|seg: &str| debug_of(seg@))
                =~= segs@.subrange(from as int, i as int).map_values(|seg: &str| debug_of(seg@)).push(
                debug_of(segs@[i as int]@),
            ));
        }
        i = i + 1;
    }
    proof {
        assert(segs@.subrange(from as int, i as int) =~= segs@.skip(from as int));
    }
    out
}

/// `items` separated by `, ` between brackets, as a list of strings is
/// printed once each item is in its printed form.
pub fn bracket_list(items: &Vec<String>) -> (r: String)
    ensures
        r@ == bracketed(items@.map_values(|t: String| t@)),
{
    let ghost all = items@.map_values(|t: String| t@);
    let mut text = String::from_str("[");
    let mut i: usize = 0;
    while i < items.len()
        invariant
            i <= items@.len(),
            all == items@.map_values(|t: String| t@),
            text@ == "["@ + joined(all.take(i as int)),
        decreases items@.len() - i,
    {
        let ghost before = text@;
        proof {
            assert(all.take(i as int + 1).drop_last() =~= all.take(i as int));
            assert(all.take(i as int + 1).last() == items@[i as int]@);
        }
        if i > 0 {
            text = text.concat(", ");
            text = text.concat(items[i].as_str());
            proof {
                assert(text@ =~= "["@ + joined(all.take(i as int + 1)));
            }
        } else {
            text = text.concat(items[i].as_str());
            proof {
                assert(all.take(1) =~= seq![items@[0]@]);
                assert(text@ =~= "["@ + joined(all.take(i as int + 1)));
            }
        }
        i = i + 1;
    }
    proof {
        assert(all.take(i as int) =~= all);
    }
    text.concat("]")
}

/// The text that names the segments `segs[from..]` as not recognised,
/// after `prefix`.
fn not_recognised(prefix: String, segs: &Vec<&str>, from: usize) -> (r: String)
    requires
        from <= segs@.len(),
    ensures
        r@ == prefix@ + "Request not recognised: "@ + listed(
            segs@.map_values(|seg: &str| seg@).skip(from as int),
        ),
{
    let printed = debug_segments(segs, from);
    let list = bracket_list(&printed);
    proof {
        assert(segs@.map_values(|seg: &str| seg@).skip(from as int).map_values(
            |seg: Seq<char>| debug_of(seg),
        ) =~= segs@.skip(from as int).map_values(|seg: &str| debug_of(seg@)));
    }
    prefix.concat("Request not recognised: ").concat(list.as_str())
}

/// The text of a reply whose calls stopped at a failure: the reply's own
/// text, then the failure between parentheses.
pub fn failure_text(text: &str, failure: &str) -> (r: String)
    ensures
        r@ == text@ + " ("@ + failure@ + ")"@,
{
    String::from_str(text).concat(" (").concat(failure).concat(")")
}

fn group_from(seg: &str) -> (r: Option<Group>)
    ensures
        r == group_of(seg@),
{
    if str_eq(seg, "robot") {
        Some(Group::Robot)
    } else if str_eq(seg, "led") {
        Some(Group::Led)
    } else if str_eq(seg, "blinkt") {
        Some(Group::Blinkt)
    } else if str_eq(seg, "borg") {
        Some(Group::Borg)
    } else {
        None
    }
}

fn verb_from(group: Group, seg: &str) -> (r: Option<Verb>)
    ensures
        r == verb_of(group, seg@),
{
    match group {
        Group::Robot => if str_eq(seg, "forward") {
            Some(Verb::Forward)
        } else if str_eq(seg, "stop") {
            Some(Verb::Stop)
        } else {
            None
        },
        Group::Led => if str_eq(seg, "led_on") {
            Some(Verb::LedOn)
        } else if str_eq(seg, "led_off") {
            Some(Verb::LedOff)
        } else {
            None
        },
        Group::Blinkt => if str_eq(seg, "strobe_led") {
            Some(Verb::StrobeLed)
        } else {
            None
        },
        Group::Borg => if str_eq(seg, "toggle_led") {
            Some(Verb::ToggleLed)
        } else if str_eq(seg, "set_motors") {
            Some(Verb::SetMotors)
        } else if str_eq(seg, "clear_motors") {
            Some(Verb::ClearMotors)
        } else {
            None
        },
    }
}

fn calls_for(verb: Verb) -> (r: Vec<Call>)
    ensures
        r@ == calls_of(verb),
{
    let mut calls: Vec<Call> = Vec::new();
    match verb {
        Verb::Forward => calls.push(Call::Forward { speed: FORWARD_SPEED }),
        Verb::Stop => calls.push(Call::Stop),
        Verb::LedOn => calls.push(Call::LedOn),
        Verb::LedOff => calls.push(Call::LedOff),
        Verb::StrobeLed => {
            calls.push(Call::LedOn);
            calls.push(Call::Pause { ms: STROBE_MS });
            calls.push(Call::LedOff);
        },
        Verb::ToggleLed => calls.push(Call::ToggleBoardLed),
        Verb::SetMotors => {
            calls.push(Call::Forward { speed: DEMO_POWER });
            calls.push(Call::Pause { ms: DEMO_DRIVE_MS });
            calls.push(Call::MotorsOff);
        },
        Verb::ClearMotors => calls.push(Call::MotorsOff),
    }
    proof {
        assert(calls@ =~= calls_of(verb));
    }
    calls
}

fn tag(group: Group) -> (r: String)
    ensures
        r@ == tag_of(group),
{
    match group {
        Group::Robot => String::from_str("[robot] "),
        Group::Led => String::from_str("[led] "),
        Group::Blinkt => String::from_str("[blinkt] "),
        Group::Borg => String::from_str("[borg] "),
    }
}

fn unavailable(group: Group) -> (r: String)
    ensures
        r@ == unavailable_text(group),
{
    match group {
        Group::Robot => String::from_str("[robot] Robot not available"),
        Group::Led => String::from_str("[led] LED not available"),
        Group::Blinkt => String::from_str("[blinkt] LED not available"),
        Group::Borg => String::from_str("[borg] PicoBorg Reverse not available"),
    }
}

fn done(verb: Verb) -> (r: String)
    ensures
        r@ == done_text(verb),
{
    match verb {
        Verb::Forward => String::from_str("[robot] moving forward at 0.5"),
        Verb::Stop => String::from_str("[robot] stopping robot"),
        Verb::LedOn => String::from_str("[led] turning LED on"),
        Verb::LedOff => String::from_str("[led] turning LED off"),
        Verb::StrobeLed => String::from_str("[blinkt] strobing LED"),
        Verb::ToggleLed => String::from_str("[borg] toggling LED"),
        Verb::SetMotors => String::from_str("[borg] driving motors"),
        Verb::ClearMotors => String::from_str("[borg] stopping motors"),
    }
}

/// The dispatcher. It holds no state between requests.
pub struct RobotServer {}

impl RobotServer {
    /// Where `path` leads.
    pub fn route(path: &str) -> (r: Route)
        ensures
            r == route_of(path@),
    {
        let segs = split_path(path);
        let ghost view = segs@.map_values(|seg: &str| seg@);
        proof {
            lemma_segments_len(path@);
        }
        if segs.len() < 2 {
            return Route::UnknownGroup;
        }
        proof {
            assert(view[0] == segs@[0]@);
            assert(view[1] == segs@[1]@);
        }
        if segs[0].unicode_len() != 0 {
            return Route::UnknownGroup;
        }
        match group_from(segs[1]) {
            None => Route::UnknownGroup,
            Some(group) => {
                if segs.len() < 3 {
                    Route::UnknownVerb(group)
                } else {
                    proof {
                        assert(view[2] == segs@[2]@);
                    }
                    match verb_from(group, segs[2]) {
                        Some(verb) => Route::Command(group, verb),
                        None => Route::UnknownVerb(group),
                    }
                }
            },
        }
    }

    /// The reply to a request for `path`, given whether motion and the
    /// indicator are present.
    pub fn dispatch(path: &str, motion: bool, indicator: bool) -> (r: Reply)
        ensures
            (r.calls@, r.text@) == reply_of(path@, motion, indicator),
    {
        match Self::route(path) {
            Route::UnknownGroup => {
                let segs = split_path(path);
                let text = not_recognised(String::new(), &segs, 0);
                proof {
                    assert(segs@.map_values(|seg: &str| seg@).skip(0) =~= segments(path@));
                    assert(Seq::<char>::empty() + "Request not recognised: "@ =~= "Request not recognised: "@);
                }
                Reply { calls: Vec::new(), text }
            },
            Route::UnknownVerb(group) => {
                let present = match group {
                    Group::Robot | Group::Borg => motion,
                    Group::Led | Group::Blinkt => indicator,
                };
                if present {
                    let segs = split_path(path);
                    proof {
                        lemma_segments_len(path@);
                    }
                    let text = not_recognised(tag(group), &segs, 1);
                    Reply { calls: Vec::new(), text }
                } else {
                    Reply { calls: Vec::new(), text: unavailable(group) }
                }
            },
            Route::Command(group, verb) => {
                let present = match group {
                    Group::Robot | Group::Borg => motion,
                    Group::Led | Group::Blinkt => indicator,
                };
                if present {
                    Reply { calls: calls_for(verb), text: done(verb) }
                } else {
                    Reply { calls: Vec::new(), text: unavailable(group) }
                }
            },
        }
    }
}

} // verus!
