use kd3005p::command::CommandKind;
use kd3005p::error::TransportError;
use kd3005p::panel::TheAppState;
use kd3005p::session::{Event, Outcome, Session};

fn begin(state: &TheAppState, kind: CommandKind) -> Session {
    Session::begin(&state.current_port, &state.request(kind))
}

fn exchange(state: &TheAppState, kind: CommandKind, reply: &[u8]) -> Outcome {
    let written = state.request(kind).encode().len();
    let mut session = begin(state, kind).step(Event::Opened).step(Event::Written(written));
    if !reply.is_empty() {
        session = session.step(Event::Received(reply.to_vec()));
    }
    session.step(Event::Received(Vec::new())).finish().unwrap()
}

fn panel_on(port: &str) -> TheAppState {
    let mut state = TheAppState::new();
    state.select_port(port);
    state
}

#[test]
fn panel_starts_with_its_defaults() {
    let state = TheAppState::new();
    assert_eq!(state.current_port, "None selected");
    assert!(!state.port_open);
    assert_eq!(state.current_voltage, "12.00");
    assert_eq!(state.current_amperage, "1.000");
    assert_eq!(state.output_info, "Welcome to KD3005P-rs! \n");
    assert!(state.the_ports.is_empty());
}

#[test]
fn selecting_a_port_changes_only_the_port() {
    let mut state = TheAppState::new();
    state.the_ports.push("/dev/ttyACM0".to_string());
    state.select_port("/dev/ttyACM0");
    assert_eq!(state.current_port, "/dev/ttyACM0");
    assert_eq!(state.current_voltage, "12.00");
    assert_eq!(state.current_amperage, "1.000");
    assert_eq!(state.output_info, "Welcome to KD3005P-rs! \n");
    assert_eq!(state.the_ports, vec!["/dev/ttyACM0".to_string()]);
}

#[test]
fn set_buttons_send_their_field() {
    let mut state = panel_on("/dev/ttyACM0");
    state.current_voltage = "5.25".to_string();
    state.current_amperage = "0.750".to_string();
    assert_eq!(state.request(CommandKind::SetVoltage).encode(), "VSET1:5.25");
    assert_eq!(state.request(CommandKind::SetAmperage).encode(), "ISET1:0.750");
    assert_eq!(state.request(CommandKind::SetVoltage).parameter(), Some("5.25"));
    assert_eq!(state.request(CommandKind::GetVoltage).parameter(), None);
    assert_eq!(state.request(CommandKind::GetVoltage).encode(), "VSET1?");
    assert_eq!(state.request(CommandKind::Identify).encode(), "*IDN?");
    let session = begin(&state, CommandKind::SetVoltage);
    assert_eq!(session.log().lines(), &vec!["attempting to open /dev/ttyACM0".to_string()]);
}

#[test]
fn get_voltage_refreshes_the_voltage_field() {
    let mut state = panel_on("/dev/ttyACM0");
    let outcome = exchange(&state, CommandKind::GetVoltage, b"05.00");
    state.absorb(CommandKind::GetVoltage, &outcome);
    assert_eq!(state.current_voltage, "05.00");
    assert_eq!(state.current_amperage, "1.000");
    assert_eq!(
        state.output_info,
        "attempting to open /dev/ttyACM0\n>> [86, 83, 69, 84, 49, 63]\n<< [48, 53, 46, 48, 48]\n< 05.00\n"
    );
}

#[test]
fn get_amperage_refreshes_the_amperage_field() {
    let mut state = panel_on("/dev/ttyACM0");
    let outcome = exchange(&state, CommandKind::GetAmperage, b"0.500");
    state.absorb(CommandKind::GetAmperage, &outcome);
    assert_eq!(state.current_amperage, "0.500");
    assert_eq!(state.current_voltage, "12.00");
}

#[test]
fn an_empty_reading_leaves_the_field() {
    let mut state = panel_on("/dev/ttyACM0");
    let outcome = exchange(&state, CommandKind::GetVoltage, b"");
    state.absorb(CommandKind::GetVoltage, &outcome);
    assert_eq!(state.current_voltage, "12.00");
    assert_eq!(
        state.output_info,
        "attempting to open /dev/ttyACM0\n>> [86, 83, 69, 84, 49, 63]\n<< []\n< \n"
    );
}

#[test]
fn actual_voltage_is_announced_before_the_trace() {
    let mut state = panel_on("/dev/ttyACM0");
    let outcome = exchange(&state, CommandKind::GetActualVoltage, b"11.98");
    state.absorb(CommandKind::GetActualVoltage, &outcome);
    assert_eq!(state.current_voltage, "12.00");
    assert_eq!(
        state.output_info,
        "The actual output voltage is 11.98 V!attempting to open /dev/ttyACM0\n>> [86, 79, 85, 84, 49, 63]\n<< [49, 49, 46, 57, 56]\n< 11.98\n"
    );
}

#[test]
fn actual_amperage_is_announced_before_the_trace() {
    let mut state = panel_on("/dev/ttyACM0");
    let outcome = exchange(&state, CommandKind::GetActualAmperage, b"0.123");
    state.absorb(CommandKind::GetActualAmperage, &outcome);
    assert_eq!(state.current_amperage, "1.000");
    assert!(state.output_info.starts_with("The actual output amperage is 0.123 A!attempting to open "));
    assert!(state.output_info.ends_with("< 0.123\n"));
}

#[test]
fn an_empty_measurement_is_not_announced() {
    let mut state = panel_on("/dev/ttyACM0");
    let outcome = exchange(&state, CommandKind::GetActualVoltage, b"");
    state.absorb(CommandKind::GetActualVoltage, &outcome);
    assert!(state.output_info.starts_with("attempting to open /dev/ttyACM0\n"));
}

#[test]
fn other_commands_show_the_trace_alone() {
    let mut state = panel_on("/dev/ttyACM0");
    let outcome = exchange(&state, CommandKind::Identify, b"KORAD KD3005P V2.0");
    state.absorb(CommandKind::Identify, &outcome);
    assert_eq!(state.current_voltage, "12.00");
    assert_eq!(state.current_amperage, "1.000");
    assert!(state.output_info.starts_with("attempting to open /dev/ttyACM0\n>> [42, 73, 68, 78, 63]\n"));
    assert!(state.output_info.ends_with("< KORAD KD3005P V2.0\n"));
    let outcome = exchange(&state, CommandKind::SetVoltage, b"");
    state.absorb(CommandKind::SetVoltage, &outcome);
    assert_eq!(state.current_voltage, "12.00");
}

#[test]
fn a_failure_is_named_after_the_trace() {
    let mut state = panel_on("/dev/nowhere");
    let outcome = begin(&state, CommandKind::GetVoltage).step(Event::EndpointMissing).finish().unwrap();
    assert_eq!(outcome.error, Some(TransportError::PortNotFound));
    state.absorb(CommandKind::GetVoltage, &outcome);
    assert_eq!(state.current_voltage, "12.00");
    assert_eq!(
        state.output_info,
        "attempting to open /dev/nowhere\nPort path does not exist\n"
    );
}

#[test]
fn a_reply_that_is_not_text_refreshes_nothing() {
    let mut state = panel_on("/dev/ttyACM0");
    let outcome = exchange(&state, CommandKind::GetVoltage, &[0xFF, 0xFE]);
    state.absorb(CommandKind::GetVoltage, &outcome);
    assert_eq!(state.current_voltage, "12.00");
    assert_eq!(
        state.output_info,
        "attempting to open /dev/ttyACM0\n>> [86, 83, 69, 84, 49, 63]\n<< [255, 254]\nReply is not text\n"
    );
}
