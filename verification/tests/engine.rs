//! The protocol engine against a scripted connection: write-then-verify,
//! query-then-recover, and the status-register taxonomy.

use mx_series::error::MxError;
use mx_series::mock::{MockConnection, MockEvent, MockReply};
use mx_series::MxSeries;

fn engine(script: Vec<MockReply>) -> MxSeries<MockConnection> {
    MxSeries::new(MockConnection::new(script))
}

fn line(s: &str) -> MockReply {
    MockReply::Line(s.to_string())
}

fn sent_text(ev: &MockEvent) -> Option<&str> {
    match ev {
        MockEvent::Sent(s) => Some(s.as_str()),
        _ => None,
    }
}

#[test]
fn execute_succeeds_on_clear_register() {
    let mut psu = engine(vec![line("0\r\n")]);
    let r = psu.execute("OP1 1");
    assert!(r.is_ok());
    let ev = &psu.chan.conn.events;
    assert_eq!(ev.len(), 4);
    assert_eq!(sent_text(&ev[0]), Some("OP1 1\n"));
    assert!(matches!(ev[1], MockEvent::Slept(50)));
    assert_eq!(sent_text(&ev[2]), Some("*ESR?\n"));
    assert!(matches!(&ev[3], MockEvent::Received(s) if s == "0\r\n"));
}

#[test]
fn execute_resolves_known_error_code() {
    let mut psu = engine(vec![line("16\r\n"), line("100\r\n")]);
    let r = psu.execute("V1 99.000");
    match r {
        Err(MxError::ExecutionError {
            code,
            error_type,
            description,
        }) => {
            assert_eq!(code, 100);
            assert_eq!(error_type, "NumericError");
            assert_eq!(
                description,
                "The parameter value sent was outside the permitted range for the command in the present circumstances."
            );
        }
        other => panic!("expected a resolved execution error, got {:?}", other),
    }
    let ev = &psu.chan.conn.events;
    assert_eq!(sent_text(&ev[4]), Some("EER?\n"));
}

#[test]
fn execute_surfaces_undefined_error_code() {
    let mut psu = engine(vec![line("16"), line("999")]);
    let r = psu.execute("V1 1.000");
    match r {
        Err(MxError::UndefinedDeviceErrorCode(code, cmd)) => {
            assert_eq!(code, 999);
            assert_eq!(cmd, "V1 1.000");
        }
        other => panic!("expected an undefined-code error, got {:?}", other),
    }
}

#[test]
fn syntax_error_takes_precedence_over_execution_error() {
    // 48 = syntax-error bit (32) and execution-error bit (16) together.
    let mut psu = engine(vec![line("48")]);
    let r = psu.execute("BOGUS");
    match r {
        Err(MxError::CommandError(cmd)) => assert_eq!(cmd, "BOGUS"),
        other => panic!("expected a syntax rejection, got {:?}", other),
    }
    // The error-code query was never issued.
    let ev = &psu.chan.conn.events;
    assert!(ev.iter().all(|e| sent_text(e) != Some("EER?\n")));
}

#[test]
fn execute_reports_verify_timeout_bit() {
    let mut psu = engine(vec![line("8")]);
    match psu.execute("OP1 1") {
        Err(MxError::VerifyTimeoutError(cmd)) => assert_eq!(cmd, "OP1 1"),
        other => panic!("expected a verify-timeout error, got {:?}", other),
    }
}

#[test]
fn execute_reports_query_error_bit() {
    let mut psu = engine(vec![line("4")]);
    match psu.execute("OP1 1") {
        Err(MxError::QueryError(cmd)) => assert_eq!(cmd, "OP1 1"),
        other => panic!("expected a query error, got {:?}", other),
    }
}

#[test]
fn execute_rejects_unparseable_status_line() {
    let mut psu = engine(vec![line("garbage")]);
    match psu.execute("OP1 1") {
        Err(MxError::Parse(text)) => assert_eq!(text, "garbage"),
        other => panic!("expected a parse error, got {:?}", other),
    }
}

#[test]
fn execute_surfaces_channel_failure_of_status_read() {
    let mut psu = engine(vec![MockReply::ChannelDown("link lost".to_string())]);
    match psu.execute("OP1 1") {
        Err(MxError::Io(msg)) => assert_eq!(msg, "link lost"),
        other => panic!("expected a communication error, got {:?}", other),
    }
}

#[test]
fn query_checked_returns_trimmed_reply_without_status_read() {
    let mut psu = engine(vec![line("1.234A\r\n")]);
    let r = psu.query_checked("I1O?");
    assert_eq!(r.unwrap(), "1.234A");
    let ev = &psu.chan.conn.events;
    assert_eq!(ev.len(), 2);
    assert_eq!(sent_text(&ev[0]), Some("I1O?\n"));
    assert!(ev.iter().all(|e| sent_text(e) != Some("*ESR?\n")));
}

#[test]
fn query_checked_keeps_original_failure_when_register_clear() {
    let mut psu = engine(vec![MockReply::ChannelDown("timed out".to_string()), line("0")]);
    match psu.query_checked("V1?") {
        Err(MxError::Io(msg)) => assert_eq!(msg, "timed out"),
        other => panic!("expected the original communication error, got {:?}", other),
    }
}

#[test]
fn query_checked_replaces_failure_with_device_error() {
    let mut psu = engine(vec![
        MockReply::ChannelDown("timed out".to_string()),
        line("16"),
        line("100"),
    ]);
    match psu.query_checked("V1?") {
        Err(MxError::ExecutionError {
            code, error_type, ..
        }) => {
            assert_eq!(code, 100);
            assert_eq!(error_type, "NumericError");
        }
        other => panic!("expected the resolved device error, got {:?}", other),
    }
}

#[test]
fn query_checked_surfaces_garbled_reply_as_parse_failure() {
    let mut psu = engine(vec![MockReply::Garbled("\u{fffd}".to_string()), line("0")]);
    match psu.query_checked("V1?") {
        Err(MxError::Parse(msg)) => assert_eq!(msg, "\u{fffd}"),
        other => panic!("expected a parse failure, got {:?}", other),
    }
}

#[test]
fn event_status_register_returns_integer() {
    let mut psu = engine(vec![line("48\r\n")]);
    match psu.event_status_register(true) {
        Ok(mx_series::ESRValue::Integer(v)) => assert_eq!(v, 48),
        other => panic!("expected the raw register byte, got {:?}", other),
    }
}

#[test]
fn event_status_register_returns_binary_string() {
    let mut psu = engine(vec![line("160")]);
    match psu.event_status_register(false) {
        Ok(mx_series::ESRValue::BinaryString(s)) => assert_eq!(s, "10100000"),
        other => panic!("expected the binary form, got {:?}", other),
    }
}

#[test]
fn clear_sends_cls_without_verification() {
    let mut psu = engine(vec![]);
    assert!(psu.clear().is_ok());
    let ev = &psu.chan.conn.events;
    assert_eq!(ev.len(), 1);
    assert_eq!(sent_text(&ev[0]), Some("*CLS\n"));
}

#[test]
fn reset_sends_rst_then_waits_longer() {
    let mut psu = engine(vec![]);
    assert!(psu.reset().is_ok());
    let ev = &psu.chan.conn.events;
    assert_eq!(ev.len(), 2);
    assert_eq!(sent_text(&ev[0]), Some("*RST\n"));
    assert!(matches!(ev[1], MockEvent::Slept(500)));
}

#[test]
fn set_timeout_records_new_deadline() {
    let mut psu = engine(vec![]);
    assert!(psu.set_timeout(2500).is_ok());
    let ev = &psu.chan.conn.events;
    assert!(matches!(ev[0], MockEvent::TimeoutSet(2500)));
}

#[test]
fn exhausted_script_surfaces_communication_error() {
    let mut psu = engine(vec![]);
    match psu.query_checked("V1?") {
        Err(MxError::Io(_)) => {}
        other => panic!("expected a communication error, got {:?}", other),
    }
}
