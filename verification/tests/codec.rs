use kd3005p::command::{encode, CommandKind, CommandRequest};
use kd3005p::error::TransportError;
use kd3005p::reply::decode;
use kd3005p::settings::{DataBits, FlowControl, Parity, PortSettings, StopBits};
use kd3005p::trace::{
    decoded_line, opening_line, received_line, render_bytes, sent_line, TraceLog,
};

#[test]
fn encode_set_voltage_appends_the_parameter() {
    assert_eq!(encode(CommandKind::SetVoltage, "12.00"), "VSET1:12.00");
}

#[test]
fn encode_set_amperage_appends_the_parameter() {
    assert_eq!(encode(CommandKind::SetAmperage, "1.000"), "ISET1:1.000");
}

#[test]
fn encode_matches_the_table_for_every_kind() {
    assert_eq!(encode(CommandKind::SetAmperage, "2.5"), "ISET1:2.5");
    assert_eq!(encode(CommandKind::GetAmperage, "2.5"), "ISET1?");
    assert_eq!(encode(CommandKind::SetVoltage, "2.5"), "VSET1:2.5");
    assert_eq!(encode(CommandKind::GetVoltage, "2.5"), "VSET1?");
    assert_eq!(encode(CommandKind::GetActualAmperage, "2.5"), "IOUT1?");
    assert_eq!(encode(CommandKind::GetActualVoltage, "2.5"), "VOUT1?");
    assert_eq!(encode(CommandKind::Identify, "2.5"), "*IDN?");
    assert_eq!(encode(CommandKind::Status, "2.5"), "STATUS?");
    assert_eq!(encode(CommandKind::OutputOn, "2.5"), "OUT1");
    assert_eq!(encode(CommandKind::OutputOff, "2.5"), "OUT0");
}

#[test]
fn encode_appends_no_terminator() {
    let wire = encode(CommandKind::Identify, "");
    assert_eq!(wire.as_bytes(), b"*IDN?");
    let wire = encode(CommandKind::SetVoltage, "");
    assert_eq!(wire.as_bytes(), b"VSET1:");
}

#[test]
fn stems_and_parameter_use() {
    assert_eq!(CommandKind::SetVoltage.stem(), "VSET1:");
    assert_eq!(CommandKind::Status.stem(), "STATUS?");
    assert!(CommandKind::SetVoltage.takes_parameter());
    assert!(CommandKind::SetAmperage.takes_parameter());
    assert!(!CommandKind::GetVoltage.takes_parameter());
    assert!(!CommandKind::GetAmperage.takes_parameter());
    assert!(!CommandKind::GetActualVoltage.takes_parameter());
    assert!(!CommandKind::GetActualAmperage.takes_parameter());
    assert!(!CommandKind::Identify.takes_parameter());
    assert!(!CommandKind::Status.takes_parameter());
    assert!(!CommandKind::OutputOn.takes_parameter());
    assert!(!CommandKind::OutputOff.takes_parameter());
}

#[test]
fn request_for_a_setting_needs_its_parameter() {
    assert!(CommandRequest::new(CommandKind::SetVoltage, None).is_none());
    assert!(CommandRequest::new(CommandKind::SetAmperage, None).is_none());
    let request = CommandRequest::new(CommandKind::SetVoltage, Some("5.00".to_string())).unwrap();
    assert_eq!(request.kind(), CommandKind::SetVoltage);
    assert_eq!(request.parameter(), Some("5.00"));
    assert_eq!(request.encode(), "VSET1:5.00");
}

#[test]
fn request_for_a_query_ignores_its_parameter() {
    let bare = CommandRequest::new(CommandKind::GetVoltage, None).unwrap();
    assert_eq!(bare.kind(), CommandKind::GetVoltage);
    assert_eq!(bare.parameter(), None);
    assert_eq!(bare.encode(), "VSET1?");
    let with = CommandRequest::new(CommandKind::GetVoltage, Some("7".to_string())).unwrap();
    assert_eq!(with.parameter(), Some("7"));
    assert_eq!(with.encode(), "VSET1?");
    let with = CommandRequest::with_parameter(CommandKind::OutputOn, "x".to_string());
    assert_eq!(with.encode(), "OUT1");
    let with = CommandRequest::with_parameter(CommandKind::SetAmperage, "0.500".to_string());
    assert_eq!(with.encode(), "ISET1:0.500");
}

#[test]
fn decode_accepts_text() {
    assert_eq!(decode(b"KORAD KD3005P V2.0"), Ok("KORAD KD3005P V2.0".to_string()));
    assert_eq!(decode(b""), Ok(String::new()));
    assert_eq!(decode(&[0xC3, 0xA9]), Ok("\u{e9}".to_string()));
}

#[test]
fn decode_refuses_bytes_that_are_not_text() {
    assert_eq!(decode(&[0xFF, 0xFE]), Err(TransportError::DecodeFailed));
    assert_eq!(decode(&[0x41, 0x80]), Err(TransportError::DecodeFailed));
    assert_eq!(decode(&[0xC3]), Err(TransportError::DecodeFailed));
}

#[test]
fn bytes_are_rendered_in_decimal() {
    assert_eq!(render_bytes(&[]), "[]");
    assert_eq!(render_bytes(&[0]), "[0]");
    assert_eq!(render_bytes(&[7]), "[7]");
    assert_eq!(render_bytes(&[9, 10, 99, 100, 255]), "[9, 10, 99, 100, 255]");
    assert_eq!(render_bytes(&[101, 110, 200, 209]), "[101, 110, 200, 209]");
    assert_eq!(render_bytes(&[0xFF, 0xFE]), "[255, 254]");
}

#[test]
fn different_bytes_are_rendered_differently() {
    assert_ne!(render_bytes(&[1, 2]), render_bytes(&[12]));
    assert_ne!(render_bytes(&[1, 23]), render_bytes(&[12, 3]));
    assert_ne!(render_bytes(&[]), render_bytes(&[0]));
    assert_ne!(render_bytes(&[0]), render_bytes(&[0, 0]));
    assert_ne!(sent_line(&[25, 5]), sent_line(&[255]));
    assert_ne!(received_line(&[10]), received_line(&[1, 0]));
    let mut seen = std::collections::HashSet::new();
    for a in 0..=255u8 {
        assert!(seen.insert(render_bytes(&[a])));
    }
}

#[test]
fn bytes_are_rendered_as_the_debug_form_of_a_slice() {
    let all: Vec<u8> = (0..=255u8).collect();
    assert_eq!(render_bytes(&all), format!("{:?}", all));
}

#[test]
fn trace_lines_have_their_marks() {
    assert_eq!(opening_line("/dev/ttyUSB0"), "attempting to open /dev/ttyUSB0");
    assert_eq!(sent_line(b"OUT1"), ">> [79, 85, 84, 49]");
    assert_eq!(received_line(b"AB"), "<< [65, 66]");
    assert_eq!(received_line(b""), "<< []");
    assert_eq!(decoded_line("12.00"), "< 12.00");
    assert_eq!(decoded_line(""), "< ");
}

#[test]
fn log_renders_one_line_each() {
    let mut log = TraceLog::new();
    assert_eq!(log.lines().len(), 0);
    assert_eq!(log.render(), "");
    log.push("first".to_string());
    log.push("second".to_string());
    assert_eq!(log.lines(), &vec!["first".to_string(), "second".to_string()]);
    assert_eq!(log.render(), "first\nsecond\n");
}

#[test]
fn required_settings_are_fixed() {
    let settings = PortSettings::required();
    assert_eq!(settings.baud_rate, 9600);
    assert_eq!(settings.data_bits, DataBits::Eight);
    assert_eq!(settings.parity, Parity::Disabled);
    assert_eq!(settings.stop_bits, StopBits::One);
    assert_eq!(settings.flow_control, FlowControl::Disabled);
    assert_eq!(settings.read_timeout_ms, 100);
}

#[test]
fn errors_describe_themselves() {
    assert_eq!(TransportError::PortNotFound.message(), "Port path does not exist");
    assert_eq!(TransportError::OpenFailed.message(), "Failed to open port");
    assert_eq!(TransportError::ConfigurationFailed.message(), "Configuring the port failed");
    assert_eq!(TransportError::WriteFailed.message(), "Write failed");
    assert_eq!(TransportError::DecodeFailed.message(), "Reply is not text");
}
