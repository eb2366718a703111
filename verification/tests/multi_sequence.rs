//! The multi-channel sequencer: per-channel configuration order, the settle
//! pause between mode-set and delay-value, and the single aggregate command.

use mx_series::mock::{MockConnection, MockEvent, MockReply};
use mx_series::{MultiActionType, MultiOperationConfig, MxSeries};

fn engine(script: Vec<MockReply>) -> MxSeries<MockConnection> {
    MxSeries::new(MockConnection::new(script))
}

fn line(s: &str) -> MockReply {
    MockReply::Line(s.to_string())
}

fn sent_text(ev: &MockEvent) -> Option<&str> {
    match ev {
        MockEvent::Sent(s) => Some(s.as_str()),
        _ => None,
    }
}

#[test]
fn delay_config_sequences_mode_pause_value_then_one_aggregate() {
    let mut psu = engine(vec![line("0"), line("0"), line("0")]);
    let r = psu.turn_on_multi(Some(vec![(1, MultiOperationConfig::DelayMs(200))]));
    assert!(r.is_ok());
    let ev = &psu.chan.conn.events;
    assert_eq!(ev.len(), 13);
    assert_eq!(sent_text(&ev[0]), Some("ONACTION1 DELAY\n"));
    assert!(matches!(ev[1], MockEvent::Slept(50)));
    assert_eq!(sent_text(&ev[2]), Some("*ESR?\n"));
    assert!(matches!(ev[4], MockEvent::Slept(100)));
    assert_eq!(sent_text(&ev[5]), Some("ONDELAY1 200\n"));
    assert!(matches!(ev[6], MockEvent::Slept(50)));
    assert_eq!(sent_text(&ev[7]), Some("*ESR?\n"));
    assert_eq!(sent_text(&ev[9]), Some("OPALL 1\n"));
    // The aggregate command goes out exactly once, after all configuration.
    let aggregates = ev
        .iter()
        .filter(|e| sent_text(e) == Some("OPALL 1\n"))
        .count();
    assert_eq!(aggregates, 1);
}

#[test]
fn quick_and_never_actions_configure_each_channel() {
    let mut psu = engine(vec![line("0"), line("0"), line("0")]);
    let r = psu.turn_on_multi(Some(vec![
        (1, MultiOperationConfig::Action(true)),
        (2, MultiOperationConfig::Action(false)),
    ]));
    assert!(r.is_ok());
    let ev = &psu.chan.conn.events;
    assert_eq!(sent_text(&ev[0]), Some("ONACTION1 QUICK\n"));
    assert_eq!(sent_text(&ev[4]), Some("ONACTION2 NEVER\n"));
    assert_eq!(sent_text(&ev[8]), Some("OPALL 1\n"));
}

#[test]
fn no_options_issues_only_the_aggregate() {
    let mut psu = engine(vec![line("0")]);
    assert!(psu.turn_on_multi(None).is_ok());
    let ev = &psu.chan.conn.events;
    assert_eq!(ev.len(), 4);
    assert_eq!(sent_text(&ev[0]), Some("OPALL 1\n"));
}

#[test]
fn turn_off_multi_uses_off_commands() {
    let mut psu = engine(vec![line("0"), line("0"), line("0")]);
    let r = psu.turn_off_multi(Some(vec![(3, MultiOperationConfig::DelayMs(50))]));
    assert!(r.is_ok());
    let ev = &psu.chan.conn.events;
    assert_eq!(sent_text(&ev[0]), Some("OFFACTION3 DELAY\n"));
    assert_eq!(sent_text(&ev[5]), Some("OFFDELAY3 50\n"));
    assert_eq!(sent_text(&ev[9]), Some("OPALL 0\n"));
}

#[test]
fn config_error_stops_before_aggregate() {
    // The first verification reads an execution error; no aggregate follows.
    let mut psu = engine(vec![line("16"), line("100")]);
    let r = psu.turn_on_multi(Some(vec![(1, MultiOperationConfig::Action(true))]));
    assert!(r.is_err());
    let ev = &psu.chan.conn.events;
    assert!(ev.iter().all(|e| sent_text(e) != Some("OPALL 1\n")));
}

#[test]
fn set_multi_actions_format_keywords() {
    let mut psu = engine(vec![line("0"), line("0"), line("0"), line("0")]);
    assert!(psu.set_multi_on_action(1, MultiActionType::Quick).is_ok());
    assert!(psu.set_multi_off_action(1, MultiActionType::Never).is_ok());
    assert!(psu.set_multi_on_delay(1, 250).is_ok());
    assert!(psu.set_multi_off_delay(1, 250).is_ok());
    let ev = &psu.chan.conn.events;
    assert_eq!(sent_text(&ev[0]), Some("ONACTION1 QUICK\n"));
    assert_eq!(sent_text(&ev[4]), Some("OFFACTION1 NEVER\n"));
    assert_eq!(sent_text(&ev[8]), Some("ONDELAY1 250\n"));
    assert_eq!(sent_text(&ev[12]), Some("OFFDELAY1 250\n"));
}
