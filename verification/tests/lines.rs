use serial_tester::lines::{Input, Output, Pins, Side, LINE_BUDGET};
use serial_tester::text::Style;

#[test]
fn line_budget_is_a_hundred_milliseconds() {
    assert_eq!(LINE_BUDGET, 100_000_000);
}

#[test]
fn outputs_arrive_on_their_partner_lines() {
    assert_eq!(Output::DataTerminalReady.partner(), Input::DataSetReady);
    assert_eq!(Output::RequestToSend.partner(), Input::ClearToSend);
}

#[test]
fn each_side_has_the_other_as_its_far_end() {
    assert_eq!(Side::Sender.other(), Side::Receiver);
    assert_eq!(Side::Receiver.other(), Side::Sender);
}

#[test]
fn counter_zero_is_all_lines_down() {
    assert_eq!(
        Pins::from_counter(0),
        Pins { data_terminal_ready: false, data_set_ready: false, request_to_send: false, clear_to_send: false }
    );
}

#[test]
fn counter_fifteen_is_all_lines_up() {
    assert_eq!(
        Pins::from_counter(15),
        Pins { data_terminal_ready: true, data_set_ready: true, request_to_send: true, clear_to_send: true }
    );
}

#[test]
fn each_bit_of_the_counter_is_one_line() {
    assert_eq!(
        Pins::from_counter(1),
        Pins { data_terminal_ready: true, data_set_ready: false, request_to_send: false, clear_to_send: false }
    );
    assert_eq!(
        Pins::from_counter(2),
        Pins { data_terminal_ready: false, data_set_ready: true, request_to_send: false, clear_to_send: false }
    );
    assert_eq!(
        Pins::from_counter(4),
        Pins { data_terminal_ready: false, data_set_ready: false, request_to_send: true, clear_to_send: false }
    );
    assert_eq!(
        Pins::from_counter(8),
        Pins { data_terminal_ready: false, data_set_ready: false, request_to_send: false, clear_to_send: true }
    );
}

#[test]
fn counter_ten_is_the_two_status_lines() {
    assert_eq!(
        Pins::from_counter(0b1010),
        Pins { data_terminal_ready: false, data_set_ready: true, request_to_send: false, clear_to_send: true }
    );
}

#[test]
fn bits_above_the_fourth_are_not_read() {
    assert_eq!(Pins::from_counter(0xf5), Pins::from_counter(0x05));
    assert_eq!(Pins::from_counter(16), Pins::from_counter(0));
}

#[test]
fn sixteen_counters_give_sixteen_settings() {
    let mut seen: Vec<Pins> = Vec::new();
    for counter in 0..16u8 {
        let pins = Pins::from_counter(counter);
        assert!(!seen.contains(&pins));
        assert_eq!(pins.counter(), counter);
        seen.push(pins);
    }
    assert_eq!(seen.len(), 16);
}

#[test]
fn every_setting_has_its_counter() {
    for dtr in [false, true] {
        for dsr in [false, true] {
            for rts in [false, true] {
                for cts in [false, true] {
                    let pins = Pins {
                        data_terminal_ready: dtr,
                        data_set_ready: dsr,
                        request_to_send: rts,
                        clear_to_send: cts,
                    };
                    assert!(pins.counter() < 16);
                    assert_eq!(Pins::from_counter(pins.counter()), pins);
                }
            }
        }
    }
}

#[test]
fn setting_says_how_each_end_drives_its_outputs() {
    let pins = Pins { data_terminal_ready: true, data_set_ready: false, request_to_send: false, clear_to_send: true };
    assert!(pins.commanded(Side::Sender, Output::DataTerminalReady));
    assert!(!pins.commanded(Side::Receiver, Output::DataTerminalReady));
    assert!(!pins.commanded(Side::Sender, Output::RequestToSend));
    assert!(pins.commanded(Side::Receiver, Output::RequestToSend));
}

#[test]
fn setting_in_words_names_the_four_lines() {
    let pins = Pins { data_terminal_ready: true, data_set_ready: false, request_to_send: true, clear_to_send: false };
    assert_eq!(pins.describe().unstyled(), "DTR up, DSR down, RTS up, CTS down");
    assert_eq!(Pins::from_counter(0).describe().unstyled(), "DTR down, DSR down, RTS down, CTS down");
    assert_eq!(Pins::from_counter(15).describe().unstyled(), "DTR up, DSR up, RTS up, CTS up");
}

#[test]
fn setting_in_words_is_green_for_up_and_red_for_down() {
    let words = Pins::from_counter(0b0110).describe();
    let styles: Vec<(Style, &str)> = words.spans.iter().map(|span| (span.style, span.text.as_str())).collect();
    assert_eq!(
        styles,
        vec![
            (Style::Plain, "DTR "),
            (Style::Red, "down"),
            (Style::Plain, ", DSR "),
            (Style::Green, "up"),
            (Style::Plain, ", RTS "),
            (Style::Green, "up"),
            (Style::Plain, ", CTS "),
            (Style::Red, "down"),
        ]
    );
}
