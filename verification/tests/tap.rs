use serial_tester::fault::{Fault, PortError};
use serial_tester::tap::Tap;
use serial_tester::text::{Style, Text};

fn plain(lines: &[Text]) -> Vec<String> {
    lines.iter().map(|line| line.unstyled()).collect()
}

fn styles(line: &Text) -> Vec<(Style, String)> {
    line.spans.iter().map(|span| (span.style, span.text.clone())).collect()
}

#[test]
fn new_reporter_has_reported_nothing() {
    let (tap, _) = Tap::new(134);
    assert_eq!(tap.counter(), 0);
    assert_eq!(tap.plan(), 134);
    assert!(!tap.failed());
    assert!(!tap.passed());
}

#[test]
fn run_has_passed_when_every_planned_check_was_reported_and_none_failed() {
    let (mut tap, _) = Tap::new(2);
    tap.result(Text::of("a"), Ok::<(), PortError>(()));
    assert!(!tap.passed());
    tap.skip(Text::of("b"));
    assert!(tap.passed());
    assert!(!tap.failed());
    assert!(Tap::new(0).0.passed());
}

#[test]
fn one_failed_check_fails_the_run() {
    let (mut tap, _) = Tap::new(2);
    tap.result(Text::of("a"), Err::<(), Fault<PortError>>(Fault::StayedLow));
    assert!(tap.failed());
    tap.result(Text::of("b"), Ok::<(), PortError>(()));
    assert!(tap.failed());
    assert!(!tap.passed());
}

#[test]
fn failure_beyond_the_plan_is_not_counted() {
    let (mut tap, _) = Tap::new(1);
    tap.skip(Text::of("a"));
    tap.result(Text::of("b"), Err::<(), Fault<PortError>>(Fault::StayedLow));
    assert!(!tap.failed());
    assert!(tap.passed());
}

#[test]
fn plan_line_counts_from_one_to_the_plan() {
    let (_, line) = Tap::new(134);
    assert_eq!(line.unstyled(), "1..134");
    assert_eq!(styles(&line), vec![(Style::Bold, String::from("1..134"))]);
    assert_eq!(Tap::new(0).1.unstyled(), "1..0");
}

#[test]
fn passed_check_gets_an_ok_line_with_its_number() {
    let (mut tap, _) = Tap::new(3);
    let lines = tap.result(Text::of("test RTS → CTS"), Ok::<(), PortError>(()));
    assert_eq!(plain(&lines), vec!["ok 1 - test RTS → CTS"]);
    assert_eq!(
        styles(&lines[0]),
        vec![
            (Style::Bold, String::from("ok")),
            (Style::Plain, String::from(" ")),
            (Style::Cyan, String::from("1")),
            (Style::Plain, String::from(" - ")),
            (Style::Plain, String::from("test RTS → CTS")),
        ]
    );
    assert_eq!(tap.counter(), 1);
}

#[test]
fn failed_check_gets_a_not_ok_line_and_a_block() {
    let (mut tap, _) = Tap::new(3);
    tap.skip(Text::of("first"));
    let lines = tap.result(Text::of("test DTR → DSR"), Err::<(), Fault<PortError>>(Fault::StayedHigh));
    assert_eq!(
        plain(&lines),
        vec![
            "not ok 2 - test DTR → DSR",
            "  ---",
            "  kind: Io(Other)",
            "  description: stayed high",
            "  ...",
        ]
    );
    assert_eq!(
        styles(&lines[0]),
        vec![
            (Style::Red, String::from("not ok")),
            (Style::Plain, String::from(" ")),
            (Style::Cyan, String::from("2")),
            (Style::Plain, String::from(" - ")),
            (Style::Plain, String::from("test DTR → DSR")),
        ]
    );
    assert_eq!(tap.counter(), 2);
}

#[test]
fn skipped_check_gets_an_ok_line_with_the_directive() {
    let (mut tap, _) = Tap::new(3);
    let lines = tap.skip(Text::of("test CTS ← RTS"));
    assert_eq!(plain(&lines), vec!["ok 1 - test CTS ← RTS # SKIP"]);
    assert_eq!(
        styles(&lines[0]),
        vec![
            (Style::Bold, String::from("ok")),
            (Style::Plain, String::from(" ")),
            (Style::Cyan, String::from("1")),
            (Style::Plain, String::from(" - ")),
            (Style::Plain, String::from("test CTS ← RTS")),
            (Style::Plain, String::from(" ")),
            (Style::Dimmed, String::from("# SKIP")),
        ]
    );
    assert_eq!(tap.counter(), 1);
}

#[test]
fn checks_are_numbered_in_the_order_of_their_reports() {
    let (mut tap, _) = Tap::new(10);
    let mut report: Vec<String> = Vec::new();
    report.extend(plain(&tap.result(Text::of("a"), Ok::<(), PortError>(()))));
    report.extend(plain(&tap.skip(Text::of("b"))));
    report.extend(plain(&tap.result(Text::of("c"), Err::<(), Fault<PortError>>(Fault::TimedOut))));
    report.extend(plain(&tap.result(Text::of("d"), Ok::<u8, PortError>(5))));
    assert_eq!(
        report,
        vec![
            "ok 1 - a",
            "ok 2 - b # SKIP",
            "not ok 3 - c",
            "  ---",
            "  kind: Io(TimedOut)",
            "  description: timed out",
            "  ...",
            "ok 4 - d",
        ]
    );
    assert_eq!(tap.counter(), 4);
}

#[test]
fn every_report_takes_one_slot_of_the_plan() {
    let (mut tap, _) = Tap::new(3);
    tap.result(Text::of("a"), Ok::<(), PortError>(()));
    assert_eq!(tap.counter(), 1);
    tap.skip(Text::of("b"));
    assert_eq!(tap.counter(), 2);
    tap.result(Text::of("c"), Err::<(), Fault<PortError>>(Fault::StayedLow));
    assert_eq!(tap.counter(), 3);
    assert_eq!(tap.plan(), 3);
}

#[test]
fn nothing_is_reported_beyond_the_plan() {
    let (mut tap, _) = Tap::new(1);
    assert_eq!(plain(&tap.skip(Text::of("a"))).len(), 1);
    assert!(tap.skip(Text::of("b")).is_empty());
    assert!(tap.result(Text::of("c"), Ok::<(), PortError>(())).is_empty());
    assert!(tap.result(Text::of("d"), Err::<(), Fault<PortError>>(Fault::TimedOut)).is_empty());
    assert_eq!(tap.counter(), 1);
}

#[test]
fn reporter_with_an_empty_plan_reports_nothing() {
    let (mut tap, _) = Tap::new(0);
    assert!(tap.skip(Text::of("a")).is_empty());
    assert!(tap.result(Text::of("b"), Err::<(), Fault<PortError>>(Fault::StayedHigh)).is_empty());
    assert_eq!(tap.counter(), 0);
}

#[test]
fn description_keeps_its_styles_in_the_line() {
    let (mut tap, _) = Tap::new(1);
    let mut description = Text::of("send (");
    description.push(Style::Green, "up");
    description.push(Style::Plain, ")");
    let lines = tap.result(description, Ok::<(), PortError>(()));
    assert_eq!(plain(&lines), vec!["ok 1 - send (up)"]);
    assert_eq!(lines[0].spans[5].style, Style::Green);
}
