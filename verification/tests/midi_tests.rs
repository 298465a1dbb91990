use midi_auto_crossfader::crossfade::{CrossfadeState, Direction, StartAction, StepAction};
use midi_auto_crossfader::midi::{
    control_change_message, control_change_status, decode_midi_message, find_input_port,
    find_output_port, handle_midi_message, output_port_not_found_message, port_name_contains,
    port_names, port_not_found_message, MidiCommand,
};

fn names(list: &[Option<&str>]) -> Vec<Option<String>> {
    list.iter().map(|n| n.map(|s| s.to_string())).collect()
}

#[test]
fn outgoing_message_is_cc_60_on_channel_1() {
    assert_eq!(control_change_status(), 0xB0);
    assert_eq!(control_change_message(42), [0xB0, 60, 42]);
    assert_eq!(control_change_message(0), [0xB0, 60, 0]);
    assert_eq!(control_change_message(127), [0xB0, 60, 127]);
}

#[test]
fn decode_buttons_and_crossfader() {
    assert_eq!(decode_midi_message(&[0xB0, 87, 127]), MidiCommand::FadeLeft);
    assert_eq!(decode_midi_message(&[0xB0, 15, 127]), MidiCommand::FadeRight);
    assert_eq!(decode_midi_message(&[0xB0, 10, 99]), MidiCommand::Crossfader(99));
    assert_eq!(decode_midi_message(&[0xB5, 15, 0, 7]), MidiCommand::FadeRight);
}

#[test]
fn decode_ignores_other_messages() {
    assert_eq!(decode_midi_message(&[]), MidiCommand::Ignore);
    assert_eq!(decode_midi_message(&[0xB0, 87]), MidiCommand::Ignore);
    assert_eq!(decode_midi_message(&[0x90, 87, 100]), MidiCommand::Ignore);
    assert_eq!(decode_midi_message(&[0xC0, 10, 100]), MidiCommand::Ignore);
    assert_eq!(decode_midi_message(&[0xB0, 11, 100]), MidiCommand::Ignore);
}

#[test]
fn manual_crossfader_move_adopts_value_and_stops() {
    let mut s = CrossfadeState::new();
    let old = match s.start(Direction::Right) {
        StartAction::Launch(t) => t,
        other => panic!("expected a launch, got {other:?}"),
    };
    s.run_step(old);
    assert_eq!(handle_midi_message(&mut s, &[0xB0, 10, 20]), MidiCommand::Crossfader(20));
    assert_eq!(s.value(), 20);
    assert!(!s.is_running());
    assert_eq!(s.run_step(old), StepAction::Interrupted);
    let new = match s.start(Direction::Left) {
        StartAction::Launch(t) => t,
        other => panic!("expected a launch, got {other:?}"),
    };
    assert_eq!(s.run_step(old), StepAction::Interrupted);
    assert_eq!(s.value(), 20);
    assert_eq!(s.run_step(new), StepAction::Send(19, Direction::Left));
}

#[test]
fn buttons_leave_state_to_the_caller() {
    let mut s = CrossfadeState::new();
    assert_eq!(handle_midi_message(&mut s, &[0xB0, 87, 127]), MidiCommand::FadeLeft);
    assert!(!s.is_running());
    assert_eq!(s.value(), 64);
    assert_eq!(handle_midi_message(&mut s, &[0x80, 10, 0]), MidiCommand::Ignore);
    assert_eq!(s.value(), 64);
}

#[test]
fn port_name_matching() {
    let name = Some("USB X-Session Anschluss 1".to_string());
    assert!(port_name_contains(&name, "X-Session"));
    assert!(port_name_contains(&name, "USB X-Session Anschluss 1"));
    assert!(port_name_contains(&name, ""));
    assert!(!port_name_contains(&name, "x-session"));
    assert!(!port_name_contains(&name, "USB X-Session Anschluss 12"));
    assert!(!port_name_contains(&None, ""));
    assert!(port_name_contains(&Some("Über Bus ü".to_string()), "Bus ü"));
}

#[test]
fn port_names_keep_readable_ones_in_order() {
    let list = names(&[Some("IAC Bus"), None, Some("X-Session"), None]);
    assert_eq!(port_names(&list), vec!["IAC Bus".to_string(), "X-Session".to_string()]);
    assert!(port_names(&[]).is_empty());
}

#[test]
fn not_found_message_without_name() {
    assert_eq!(
        port_not_found_message("", &[]),
        "No MIDI input port name configured. Available input ports: []"
    );
}

#[test]
fn not_found_message_lists_ports_in_debug_form() {
    let available = vec!["IAC Bus".to_string(), "Say \"hi\"\\".to_string()];
    let msg = port_not_found_message("X-Session", &available);
    assert_eq!(
        msg,
        "MIDI input port containing 'X-Session' not found. Available input ports: [\"IAC Bus\", \"Say \\\"hi\\\"\\\\\"]"
    );
    assert_eq!(
        msg,
        format!("MIDI input port containing 'X-Session' not found. Available input ports: {available:?}")
    );
}

#[test]
fn find_first_matching_port() {
    let list = names(&[Some("IAC Bus"), None, Some("USB X-Session 1"), Some("USB X-Session 2")]);
    assert_eq!(find_input_port(&list, "X-Session"), Ok(2));
    assert_eq!(find_input_port(&list, "IAC"), Ok(0));
}

#[test]
fn find_reports_missing_port() {
    let list = names(&[Some("IAC Bus"), None]);
    assert_eq!(
        find_input_port(&list, "X-Session"),
        Err("MIDI input port containing 'X-Session' not found. Available input ports: [\"IAC Bus\"]".to_string())
    );
    assert_eq!(
        find_input_port(&[None], ""),
        Err("No MIDI input port name configured. Available input ports: []".to_string())
    );
}

#[test]
fn empty_name_lists_the_ports() {
    let list = names(&[Some("IAC Bus"), None, Some("USB X-Session 1")]);
    assert_eq!(
        find_input_port(&list, ""),
        Err("No MIDI input port name configured. Available input ports: [\"IAC Bus\", \"USB X-Session 1\"]".to_string())
    );
    assert_eq!(
        find_output_port(&list, ""),
        Err("No MIDI output port name configured. Available output ports: [\"IAC Bus\", \"USB X-Session 1\"]".to_string())
    );
}

#[test]
fn find_output_port_by_name() {
    let list = names(&[Some("Crossfader A"), Some("Crossfader B")]);
    assert_eq!(find_output_port(&list, "Crossfader"), Ok(0));
    assert_eq!(find_output_port(&list, "B"), Ok(1));
    assert_eq!(
        find_output_port(&list, "IAC"),
        Err("MIDI output port containing 'IAC' not found. Available output ports: [\"Crossfader A\", \"Crossfader B\"]".to_string())
    );
}

#[test]
fn output_not_found_message_forms() {
    assert_eq!(
        output_port_not_found_message("", &[]),
        "No MIDI output port name configured. Available output ports: []"
    );
    assert_eq!(
        output_port_not_found_message("X", &["a\tb".to_string()]),
        "MIDI output port containing 'X' not found. Available output ports: [\"a\\tb\"]"
    );
}
