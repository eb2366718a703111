//! The operation surface: exact command formatting, reply parsing for each
//! query shape, framing, and parameter validation.

use mx_series::error::MxError;
use mx_series::mock::{MockConnection, MockEvent, MockReply};
use mx_series::connection::CommandChannel;
use mx_series::{MeterAveraging, MxSeries};

fn engine(script: Vec<MockReply>) -> MxSeries<MockConnection> {
    MxSeries::new(MockConnection::new(script))
}

fn line(s: &str) -> MockReply {
    MockReply::Line(s.to_string())
}

fn sent_text(ev: &MockEvent) -> Option<&str> {
    match ev {
        MockEvent::Sent(s) => Some(s.as_str()),
        _ => None,
    }
}

#[test]
fn command_channel_frames_and_trims() {
    let mut chan = CommandChannel::new(MockConnection::new(vec![line("1.234A\r\n")]));
    assert!(chan.send("OP1 1").is_ok());
    assert_eq!(chan.receive().unwrap(), "1.234A");
    let ev = &chan.conn.events;
    assert_eq!(sent_text(&ev[0]), Some("OP1 1\n"));
    assert!(matches!(&ev[1], MockEvent::Received(s) if s == "1.234A\r\n"));
}

#[test]
fn save_rejects_index_fifty_before_sending() {
    let mut psu = engine(vec![line("0")]);
    match psu.save(1, 50) {
        Err(MxError::InvalidParameter(msg)) => assert_eq!(msg, "Store index must be 0-49."),
        other => panic!("expected an invalid-parameter error, got {:?}", other),
    }
    assert!(psu.chan.conn.events.is_empty());
}

#[test]
fn save_accepts_index_forty_nine() {
    let mut psu = engine(vec![line("0")]);
    assert!(psu.save(1, 49).is_ok());
    assert_eq!(sent_text(&psu.chan.conn.events[0]), Some("SAV1 49\n"));
}

#[test]
fn recall_rejects_index_fifty_before_sending() {
    let mut psu = engine(vec![line("0")]);
    match psu.recall(2, 50) {
        Err(MxError::InvalidParameter(_)) => {}
        other => panic!("expected an invalid-parameter error, got {:?}", other),
    }
    assert!(psu.chan.conn.events.is_empty());
}

#[test]
fn recall_all_uses_recall_prefixed_command() {
    let mut psu = engine(vec![line("0")]);
    assert!(psu.recall_all(7).is_ok());
    assert_eq!(sent_text(&psu.chan.conn.events[0]), Some("*RCL 7\n"));
}

#[test]
fn save_all_uses_save_prefixed_command() {
    let mut psu = engine(vec![line("0")]);
    assert!(psu.save_all(7).is_ok());
    assert_eq!(sent_text(&psu.chan.conn.events[0]), Some("*SAV 7\n"));
}

#[test]
fn set_voltage_formats_three_decimals() {
    let mut psu = engine(vec![line("0")]);
    assert!(psu.set_voltage(2, 12345, false).is_ok());
    assert_eq!(sent_text(&psu.chan.conn.events[0]), Some("V2 12.345\n"));
}

#[test]
fn set_voltage_verified_variant_inserts_suffix() {
    let mut psu = engine(vec![line("0")]);
    assert!(psu.set_voltage(2, 5000, true).is_ok());
    assert_eq!(sent_text(&psu.chan.conn.events[0]), Some("V2V 5.000\n"));
}

#[test]
fn set_current_limit_formats_three_decimals() {
    let mut psu = engine(vec![line("0")]);
    assert!(psu.set_current_limit(1, 500).is_ok());
    assert_eq!(sent_text(&psu.chan.conn.events[0]), Some("I1 0.500\n"));
}

#[test]
fn set_over_current_protection_chains_enable_and_value() {
    let mut psu = engine(vec![line("0")]);
    assert!(psu.set_over_current_protection(1, true, Some(1500)).is_ok());
    assert_eq!(
        sent_text(&psu.chan.conn.events[0]),
        Some("OCP1 ON;OCP1 1.500\n")
    );
}

#[test]
fn set_over_current_protection_requires_value_when_enabling() {
    let mut psu = engine(vec![line("0")]);
    match psu.set_over_current_protection(1, true, None) {
        Err(MxError::InvalidParameter(msg)) => {
            assert_eq!(msg, "Must specify OCP value if enabling.")
        }
        other => panic!("expected an invalid-parameter error, got {:?}", other),
    }
    assert!(psu.chan.conn.events.is_empty());
}

#[test]
fn set_over_voltage_protection_off() {
    let mut psu = engine(vec![line("0")]);
    assert!(psu.set_over_voltage_protection(3, false, None).is_ok());
    assert_eq!(sent_text(&psu.chan.conn.events[0]), Some("OVP3 OFF\n"));
}

#[test]
fn get_voltage_parses_unit_suffix() {
    let mut psu = engine(vec![line("5.000V\r\n")]);
    assert_eq!(psu.get_voltage(1).unwrap(), 5000);
}

#[test]
fn get_current_parses_unit_suffix() {
    let mut psu = engine(vec![line("1.234A\r\n")]);
    assert_eq!(psu.get_current(1).unwrap(), 1234);
}

#[test]
fn get_current_rejects_reply_without_suffix() {
    let mut psu = engine(vec![line("1.234\r\n")]);
    match psu.get_current(1) {
        Err(MxError::Parse(text)) => assert_eq!(text, "1.234"),
        other => panic!("expected a parse error, got {:?}", other),
    }
}

#[test]
fn get_current_limit_parses_label_value_pair() {
    let mut psu = engine(vec![line("I1 0.500\r\n")]);
    assert_eq!(psu.get_current_limit(1).unwrap(), 500);
}

#[test]
fn get_voltage_setpoint_parses_label_value_pair() {
    let mut psu = engine(vec![line("V1 5.000")]);
    assert_eq!(psu.get_voltage_setpoint(1).unwrap(), 5000);
}

#[test]
fn get_voltage_setpoint_rejects_three_fields() {
    let mut psu = engine(vec![line("V1 5.000 extra")]);
    assert!(matches!(psu.get_voltage_setpoint(1), Err(MxError::Parse(_))));
}

#[test]
fn get_over_voltage_protection_reads_off() {
    let mut psu = engine(vec![line("OVP1 OFF")]);
    assert_eq!(psu.get_over_voltage_protection(1).unwrap(), None);
}

#[test]
fn get_over_voltage_protection_reads_trip_point() {
    let mut psu = engine(vec![line("OVP1 30.50")]);
    assert_eq!(psu.get_over_voltage_protection(1).unwrap(), Some(30500));
}

#[test]
fn get_over_current_protection_reads_lower_case_off() {
    let mut psu = engine(vec![line("ocp1 off")]);
    assert_eq!(psu.get_over_current_protection(1).unwrap(), None);
}

#[test]
fn get_voltage_range_parses_bare_integer() {
    let mut psu = engine(vec![line("2")]);
    assert_eq!(psu.get_voltage_range(1).unwrap(), 2);
}

#[test]
fn get_voltage_tracking_mode_parses_bare_integer() {
    let mut psu = engine(vec![line("0")]);
    assert_eq!(psu.get_voltage_tracking_mode().unwrap(), 0);
}

#[test]
fn is_output_on_reads_one_and_zero() {
    let mut psu = engine(vec![line("1")]);
    assert!(psu.is_output_on(1).unwrap());
    let mut psu = engine(vec![line("0")]);
    assert!(!psu.is_output_on(1).unwrap());
    let mut psu = engine(vec![line("2")]);
    assert!(matches!(psu.is_output_on(1), Err(MxError::Parse(_))));
}

#[test]
fn turn_on_and_off_format_channel_commands() {
    let mut psu = engine(vec![line("0"), line("0")]);
    assert!(psu.turn_on(3).is_ok());
    assert!(psu.turn_off(3).is_ok());
    let ev = &psu.chan.conn.events;
    assert_eq!(sent_text(&ev[0]), Some("OP3 1\n"));
    assert_eq!(sent_text(&ev[4]), Some("OP3 0\n"));
}

#[test]
fn increment_and_decrement_with_verify_suffix() {
    let mut psu = engine(vec![line("0"), line("0"), line("0"), line("0")]);
    assert!(psu.increment_voltage(1, true).is_ok());
    assert!(psu.increment_voltage(1, false).is_ok());
    assert!(psu.decrement_voltage(2, true).is_ok());
    assert!(psu.decrement_current(2).is_ok());
    let ev = &psu.chan.conn.events;
    assert_eq!(sent_text(&ev[0]), Some("INCV1V\n"));
    assert_eq!(sent_text(&ev[4]), Some("INCV1\n"));
    assert_eq!(sent_text(&ev[8]), Some("DECV2V\n"));
    assert_eq!(sent_text(&ev[12]), Some("DECI2\n"));
}

#[test]
fn meter_averaging_keywords() {
    assert_eq!(MeterAveraging::On.as_str(), "ON");
    assert_eq!(MeterAveraging::Off.as_str(), "OFF");
    assert_eq!(MeterAveraging::Low.as_str(), "LOW");
    assert_eq!(MeterAveraging::Med.as_str(), "MED");
    assert_eq!(MeterAveraging::High.as_str(), "HIGH");
}

#[test]
fn set_current_meter_averaging_sends_keyword() {
    let mut psu = engine(vec![line("0")]);
    assert!(psu.set_current_meter_averaging(1, MeterAveraging::Med).is_ok());
    assert_eq!(sent_text(&psu.chan.conn.events[0]), Some("DAMPING1 MED\n"));
}

#[test]
fn set_voltage_range_formats_signed_index() {
    let mut psu = engine(vec![line("0")]);
    assert!(psu.set_voltage_range(1, 2).is_ok());
    assert_eq!(sent_text(&psu.chan.conn.events[0]), Some("VRANGE1 2\n"));
}

#[test]
fn set_voltage_tracking_mode_formats_mode() {
    let mut psu = engine(vec![line("0")]);
    assert!(psu.set_voltage_tracking_mode(0).is_ok());
    assert_eq!(sent_text(&psu.chan.conn.events[0]), Some("CONFIG 0\n"));
}

#[test]
fn step_size_commands_format_three_decimals() {
    let mut psu = engine(vec![line("0"), line("0")]);
    assert!(psu.set_voltage_step_size(1, 10).is_ok());
    assert!(psu.set_current_step_size(1, 10).is_ok());
    let ev = &psu.chan.conn.events;
    assert_eq!(sent_text(&ev[0]), Some("DELTAV1 0.010\n"));
    assert_eq!(sent_text(&ev[4]), Some("DELTAI1 0.010\n"));
}

#[test]
fn step_size_queries_parse_pair_replies() {
    let mut psu = engine(vec![line("DELTAV1 0.010")]);
    assert_eq!(psu.get_voltage_step_size(1).unwrap(), 10);
    let mut psu = engine(vec![line("DELTAI1 0.010")]);
    assert_eq!(psu.get_current_step_size(1).unwrap(), 10);
}

#[test]
fn reset_trip_sends_fixed_command() {
    let mut psu = engine(vec![line("0")]);
    assert!(psu.reset_trip().is_ok());
    assert_eq!(sent_text(&psu.chan.conn.events[0]), Some("TRIPRST\n"));
}
