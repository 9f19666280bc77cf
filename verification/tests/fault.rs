use serial_tester::fault::{block, mismatch, Fault, PortError};
use serial_tester::tap::{field_line, Diagnostic};
use serial_tester::text::Style;

fn plain(lines: Vec<serial_tester::text::Text>) -> Vec<String> {
    lines.iter().map(|line| line.unstyled()).collect()
}

#[test]
fn stuck_lines_say_which_way_they_are_stuck() {
    assert_eq!(Fault::<()>::StayedHigh.description(), Some(String::from("stayed high")));
    assert_eq!(Fault::<()>::StayedLow.description(), Some(String::from("stayed low")));
}

#[test]
fn timeout_is_a_kind_of_its_own() {
    assert_eq!(Fault::<()>::TimedOut.kind(), Some(String::from("Io(TimedOut)")));
    assert_eq!(Fault::<()>::TimedOut.description(), Some(String::from("timed out")));
    assert_eq!(Fault::<()>::StayedHigh.kind(), Some(String::from("Io(Other)")));
    assert_eq!(Fault::<()>::StayedLow.kind(), Some(String::from("Io(Other)")));
    let mismatched = Fault::<()>::Mismatch { received: vec![1], expected: vec![2] };
    assert_eq!(mismatched.kind(), Some(String::from("Io(Other)")));
}

#[test]
fn port_error_brings_its_own_words() {
    assert_eq!(Fault::Port(7).kind(), None);
    assert_eq!(Fault::Port(7).description(), None);
}

#[test]
fn mismatch_shows_both_byte_strings_escaped() {
    let received = b"ab\n".to_vec();
    let expected = vec![0u8, b'"', 0xff];
    let words = mismatch(&received, &expected);
    assert_eq!(words, "content mismatched: “ab\\n” != “\\x00\\\"\\xff”");
    assert_eq!(
        words,
        format!("content mismatched: “{}” != “{}”", received.escape_ascii(), expected.escape_ascii())
    );
    let fault = Fault::<()>::Mismatch { received, expected };
    assert_eq!(fault.description(), Some(words));
}

#[test]
fn mismatch_of_nothing_received_shows_an_empty_string() {
    assert_eq!(mismatch(&vec![], &b"x".to_vec()), "content mismatched: “” != “x”");
}

#[test]
fn field_line_is_indented_with_a_green_key() {
    let line = field_line("kind", "NoDevice");
    assert_eq!(line.unstyled(), "  kind: NoDevice");
    let styles: Vec<Style> = line.spans.iter().map(|span| span.style).collect();
    assert_eq!(styles, vec![Style::Plain, Style::Green, Style::Plain, Style::Plain]);
    assert_eq!(line.spans[1].text, "kind");
}

#[test]
fn block_has_the_kind_and_then_the_description() {
    assert_eq!(plain(block("Unknown", "no idea")), vec!["  kind: Unknown", "  description: no idea"]);
}

#[test]
fn port_error_is_shown_by_kind_and_description() {
    let error = PortError { kind: String::from("NoDevice"), description: String::from("No such file or directory") };
    assert_eq!(plain(error.diagnostic()), vec!["  kind: NoDevice", "  description: No such file or directory"]);
}

#[test]
fn fault_of_a_check_is_shown_by_kind_and_description() {
    assert_eq!(
        plain(Fault::<PortError>::StayedHigh.diagnostic()),
        vec!["  kind: Io(Other)", "  description: stayed high"]
    );
    assert_eq!(
        plain(Fault::<PortError>::StayedLow.diagnostic()),
        vec!["  kind: Io(Other)", "  description: stayed low"]
    );
    assert_eq!(
        plain(Fault::<PortError>::TimedOut.diagnostic()),
        vec!["  kind: Io(TimedOut)", "  description: timed out"]
    );
    assert_eq!(
        plain(Fault::<PortError>::Mismatch { received: vec![b'a'], expected: vec![b'b'] }.diagnostic()),
        vec!["  kind: Io(Other)", "  description: content mismatched: “a” != “b”"]
    );
}

#[test]
fn fault_of_the_port_layer_is_shown_as_the_port_error() {
    let error = PortError { kind: String::from("Io(BrokenPipe)"), description: String::from("broken pipe") };
    assert_eq!(
        plain(Fault::Port(error).diagnostic()),
        vec!["  kind: Io(BrokenPipe)", "  description: broken pipe"]
    );
}
