use marvin::blinkt::Blinkt;
use marvin::picoborg_rev::{PicoBorgRev, Transfer, COMMAND_ALL_OFF, COMMAND_SET_ALL_FWD, COMMAND_SET_LED};
use marvin::robot_server::{
    bracket_list, failure_text, Call, Group, RobotServer, Route, Verb, DEMO_DRIVE_MS, DEMO_POWER,
    FORWARD_SPEED, STROBE_MS,
};
use marvin::spare_parts::{Effect, SpareParts};

fn lit_frame() -> Vec<bool> {
    let mut b = Blinkt::new();
    b.set_all(255, 255, 255);
    b.show()
}

#[test]
fn routes() {
    assert_eq!(RobotServer::route("/robot/forward"), Route::Command(Group::Robot, Verb::Forward));
    assert_eq!(RobotServer::route("/robot/stop/more"), Route::Command(Group::Robot, Verb::Stop));
    assert_eq!(RobotServer::route("/led/led_off"), Route::Command(Group::Led, Verb::LedOff));
    assert_eq!(RobotServer::route("/blinkt/strobe_led"), Route::Command(Group::Blinkt, Verb::StrobeLed));
    assert_eq!(RobotServer::route("/borg/clear_motors"), Route::Command(Group::Borg, Verb::ClearMotors));
    assert_eq!(RobotServer::route("/robot"), Route::UnknownVerb(Group::Robot));
    assert_eq!(RobotServer::route("/robot/"), Route::UnknownVerb(Group::Robot));
    assert_eq!(RobotServer::route("/led/forward"), Route::UnknownVerb(Group::Led));
    assert_eq!(RobotServer::route("/unknown/x"), Route::UnknownGroup);
    assert_eq!(RobotServer::route("/"), Route::UnknownGroup);
    assert_eq!(RobotServer::route(""), Route::UnknownGroup);
    assert_eq!(RobotServer::route("robot/forward"), Route::UnknownGroup);
    assert_eq!(RobotServer::route("//robot/forward"), Route::UnknownGroup);
}

#[test]
fn forward_without_motion_is_not_available() {
    let r = RobotServer::dispatch("/robot/forward", false, true);
    assert_eq!(r.text, "[robot] Robot not available");
    assert!(r.calls.is_empty());
}

#[test]
fn forward_with_motion() {
    let r = RobotServer::dispatch("/robot/forward", true, false);
    assert_eq!(r.text, "[robot] moving forward at 0.5");
    assert_eq!(r.calls, vec![Call::Forward { speed: FORWARD_SPEED }]);
}

#[test]
fn led_on_with_strip_lights_it_once() {
    let mut parts = SpareParts::new(None, Some(Blinkt::new()));
    let r = RobotServer::dispatch("/led/led_on", parts.has_motion(), parts.has_indicator());
    assert_eq!(r.text, "[led] turning LED on");
    assert_eq!(r.calls, vec![Call::LedOn]);
    let effects: Vec<Effect> = r.calls.iter().flat_map(|c| parts.apply(*c)).collect();
    assert_eq!(effects, vec![Effect::Frame(lit_frame())]);
}

#[test]
fn led_on_with_board_writes_once() {
    let mut parts = SpareParts::new(Some(PicoBorgRev::new()), None);
    let r = RobotServer::dispatch("/led/led_on", parts.has_motion(), parts.has_indicator());
    let effects: Vec<Effect> = r.calls.iter().flat_map(|c| parts.apply(*c)).collect();
    assert_eq!(effects, vec![Effect::Bus(Transfer::WriteByte { command: COMMAND_SET_LED, value: 1 })]);
}

#[test]
fn unknown_path_is_named_and_serving_goes_on() {
    let mut parts = SpareParts::new(Some(PicoBorgRev::new()), None);
    let r = RobotServer::dispatch("/unknown/x", parts.has_motion(), parts.has_indicator());
    assert_eq!(r.text, format!("Request not recognised: {:?}", vec!["", "unknown", "x"]));
    assert_eq!(r.text, "Request not recognised: [\"\", \"unknown\", \"x\"]");
    assert!(r.calls.is_empty());
    let r = RobotServer::dispatch("/robot/stop", parts.has_motion(), parts.has_indicator());
    assert_eq!(r.text, "[robot] stopping robot");
    let effects: Vec<Effect> = r.calls.iter().flat_map(|c| parts.apply(*c)).collect();
    assert_eq!(effects, vec![Effect::Bus(Transfer::WriteByte { command: COMMAND_SET_ALL_FWD, value: 0 })]);
}

#[test]
fn unknown_verb_is_named() {
    let r = RobotServer::dispatch("/led/blink", true, true);
    assert_eq!(r.text, format!("[led] Request not recognised: {:?}", vec!["led", "blink"]));
    let r = RobotServer::dispatch("/led/blink", true, false);
    assert_eq!(r.text, "[led] LED not available");
    let r = RobotServer::dispatch("/borg", true, true);
    assert_eq!(r.text, "[borg] Request not recognised: [\"borg\"]");
    let r = RobotServer::dispatch("/robot/xyz", true, false);
    assert_eq!(r.text, format!("[robot] Request not recognised: {:?}", vec!["robot", "xyz"]));
    assert!(r.calls.is_empty());
}

#[test]
fn strobe_and_demo_drive() {
    let r = RobotServer::dispatch("/blinkt/strobe_led", false, true);
    assert_eq!(r.text, "[blinkt] strobing LED");
    assert_eq!(r.calls, vec![Call::LedOn, Call::Pause { ms: STROBE_MS }, Call::LedOff]);
    let r = RobotServer::dispatch("/borg/set_motors", true, true);
    assert_eq!(
        r.calls,
        vec![Call::Forward { speed: DEMO_POWER }, Call::Pause { ms: DEMO_DRIVE_MS }, Call::MotorsOff]
    );
    let r = RobotServer::dispatch("/borg/toggle_led", false, true);
    assert_eq!(r.text, "[borg] PicoBorg Reverse not available");
}

#[test]
fn toggle_switches_the_board_led_over() {
    let mut parts = SpareParts::new(Some(PicoBorgRev::new()), Some(Blinkt::new()));
    assert_eq!(
        parts.apply(Call::ToggleBoardLed),
        vec![Effect::Bus(Transfer::WriteByte { command: COMMAND_SET_LED, value: 1 })]
    );
    assert_eq!(
        parts.apply(Call::ToggleBoardLed),
        vec![Effect::Bus(Transfer::WriteByte { command: COMMAND_SET_LED, value: 0 })]
    );
    assert_eq!(parts.apply(Call::Pause { ms: 7 }), vec![Effect::Pause { ms: 7 }]);
}

#[test]
fn calls_without_a_device_do_nothing() {
    let mut parts = SpareParts::new(None, None);
    assert!(!parts.has_motion());
    assert!(!parts.has_indicator());
    assert!(parts.apply(Call::Forward { speed: 1 }).is_empty());
    assert!(parts.apply(Call::LedOn).is_empty());
    assert!(parts.teardown().is_empty());
}

#[test]
fn teardown_switches_motors_off_once_and_darkens_the_strip() {
    let mut parts = SpareParts::new(Some(PicoBorgRev::new()), Some(Blinkt::new()));
    parts.apply(Call::LedOn);
    parts.apply(Call::Forward { speed: 1 });
    let effects = parts.teardown();
    assert_eq!(
        effects,
        vec![
            Effect::Bus(Transfer::WriteByte { command: COMMAND_ALL_OFF, value: 0 }),
            Effect::Frame(Blinkt::new().show()),
        ]
    );
}

#[test]
fn unrecognised_segments_are_escaped() {
    let r = RobotServer::dispatch("/odd\"path/é\\", true, true);
    assert_eq!(r.text, format!("Request not recognised: {:?}", vec!["", "odd\"path", "é\\"]));
    let r = RobotServer::dispatch("", true, true);
    assert_eq!(r.text, "Request not recognised: [\"\"]");
}

#[test]
fn bracket_list_joins_printed_items() {
    assert_eq!(bracket_list(&vec![]), "[]");
    assert_eq!(bracket_list(&vec!["a".to_string()]), "[a]");
    assert_eq!(bracket_list(&vec!["\"a\"".to_string(), "b".to_string(), "c".to_string()]), "[\"a\", b, c]");
}

#[test]
fn failure_is_appended_to_the_reply() {
    assert_eq!(failure_text("[robot] stopping robot", "bus error"), "[robot] stopping robot (bus error)");
    assert_eq!(failure_text("", ""), " ()");
}
