use serial_tester::fault::Fault;
use serial_tester::lines::{Input, Output, Pins, Side};
use serial_tester::transmit::{
    first_probe, full_pattern, has_arrived, same_bytes, settled, test_transmit, Probe, SettleStep, Stage,
    Transmission, TransmitEvent, TransmitRequest, TransmitStep, ARRIVAL_BUDGET,
};

const PINS: Pins = Pins { data_terminal_ready: true, data_set_ready: false, request_to_send: false, clear_to_send: true };

fn at(stage: Stage) -> Transmission {
    Transmission { pins: PINS, pattern: vec![1, 2, 3], budget: 77, stage }
}

fn step(stage: Stage, event: TransmitEvent<&'static str>) -> TransmitStep<&'static str> {
    test_transmit(at(stage), event)
}

fn moved_to(stage: Stage) -> TransmitStep<&'static str> {
    TransmitStep::Continue(at(stage), at(stage).pending())
}

/// Runs the settle check against four readings and returns its result with
/// the readings that were asked for.
fn settle(pins: Pins, levels: [Result<bool, &'static str>; 4]) -> (Result<bool, &'static str>, Vec<Probe>) {
    let mut probe = first_probe();
    let mut asked = Vec::new();
    loop {
        asked.push(probe);
        let level = match probe {
            Probe::ReceiverDsr => levels[0],
            Probe::SenderDsr => levels[1],
            Probe::ReceiverCts => levels[2],
            Probe::SenderCts => levels[3],
        };
        match settled(pins, probe, level) {
            SettleStep::Read(next) => probe = next,
            SettleStep::Finished(result) => return (result, asked),
        }
    }
}

#[test]
fn arrival_budget_is_five_hundred_milliseconds() {
    assert_eq!(ARRIVAL_BUDGET, 500_000_000);
}

#[test]
fn full_pattern_is_every_byte_value_in_order() {
    let pattern = full_pattern();
    assert_eq!(pattern.len(), 256);
    for (place, byte) in pattern.iter().enumerate() {
        assert_eq!(*byte as usize, place);
    }
    assert_eq!(pattern, (u8::MIN..=u8::MAX).collect::<Vec<u8>>());
}

#[test]
fn same_bytes_wants_length_and_content() {
    assert!(same_bytes(&vec![], &vec![]));
    assert!(same_bytes(&vec![1, 2, 3], &vec![1, 2, 3]));
    assert!(!same_bytes(&vec![1, 2, 3], &vec![1, 2]));
    assert!(!same_bytes(&vec![1, 2], &vec![1, 2, 3]));
    assert!(!same_bytes(&vec![1, 2, 3], &vec![1, 2, 4]));
    assert!(!same_bytes(&vec![0, 2, 3], &vec![1, 2, 3]));
}

#[test]
fn pattern_has_arrived_when_the_buffer_holds_it_all() {
    assert!(has_arrived(256, 256));
    assert!(has_arrived(300, 256));
    assert!(!has_arrived(255, 256));
    assert!(!has_arrived(0, 1));
    assert!(has_arrived(0, 0));
    assert!(has_arrived(u32::MAX, 256));
}

#[test]
fn probes_read_the_partner_lines_at_both_ends() {
    assert_eq!((Probe::ReceiverDsr.side(), Probe::ReceiverDsr.line()), (Side::Receiver, Input::DataSetReady));
    assert_eq!((Probe::SenderDsr.side(), Probe::SenderDsr.line()), (Side::Sender, Input::DataSetReady));
    assert_eq!((Probe::ReceiverCts.side(), Probe::ReceiverCts.line()), (Side::Receiver, Input::ClearToSend));
    assert_eq!((Probe::SenderCts.side(), Probe::SenderCts.line()), (Side::Sender, Input::ClearToSend));
    assert_eq!(Probe::ReceiverDsr.watched(), Output::DataTerminalReady);
    assert_eq!(Probe::SenderCts.watched(), Output::RequestToSend);
}

#[test]
fn lines_have_settled_when_all_four_read_as_commanded() {
    let (result, asked) = settle(PINS, [Ok(true), Ok(false), Ok(false), Ok(true)]);
    assert_eq!(result, Ok(true));
    assert_eq!(asked, vec![Probe::ReceiverDsr, Probe::SenderDsr, Probe::ReceiverCts, Probe::SenderCts]);
}

#[test]
fn settle_check_stops_at_the_first_line_that_differs() {
    let (result, asked) = settle(PINS, [Ok(false), Err("not read"), Err("not read"), Err("not read")]);
    assert_eq!(result, Ok(false));
    assert_eq!(asked, vec![Probe::ReceiverDsr]);
    let (result, asked) = settle(PINS, [Ok(true), Ok(false), Ok(true), Err("not read")]);
    assert_eq!(result, Ok(false));
    assert_eq!(asked.len(), 3);
    let (result, asked) = settle(PINS, [Ok(true), Ok(false), Ok(false), Ok(false)]);
    assert_eq!(result, Ok(false));
    assert_eq!(asked.len(), 4);
}

#[test]
fn settle_check_stops_at_the_first_reading_that_fails() {
    let (result, asked) = settle(PINS, [Ok(true), Err("gone"), Ok(false), Ok(true)]);
    assert_eq!(result, Err("gone"));
    assert_eq!(asked.len(), 2);
}

#[test]
fn settle_check_holds_for_every_setting_on_a_crossed_cable() {
    for counter in 0..16u8 {
        let pins = Pins::from_counter(counter);
        let levels = [
            Ok(pins.data_terminal_ready),
            Ok(pins.data_set_ready),
            Ok(pins.request_to_send),
            Ok(pins.clear_to_send),
        ];
        assert_eq!(settle(pins, levels).0, Ok(true));
    }
}

#[test]
fn full_test_sends_the_full_pattern_with_the_default_budget() {
    let test = Transmission::full(PINS);
    assert_eq!(test.pins, PINS);
    assert_eq!(test.pattern, full_pattern());
    assert_eq!(test.budget, ARRIVAL_BUDGET);
    assert_eq!(test.stage, Stage::DrivingSenderDtr);
}

#[test]
fn new_test_takes_a_short_pattern_and_its_budget() {
    let test = Transmission::new(PINS, b"ping".to_vec(), 5);
    assert_eq!(test, Transmission { pins: PINS, pattern: b"ping".to_vec(), budget: 5, stage: Stage::DrivingSenderDtr });
}

#[test]
fn four_lines_are_driven_as_the_setting_says() {
    assert_eq!(
        at(Stage::DrivingSenderDtr).pending(),
        TransmitRequest::Drive { side: Side::Sender, line: Output::DataTerminalReady, level: true }
    );
    assert_eq!(
        at(Stage::DrivingReceiverDtr).pending(),
        TransmitRequest::Drive { side: Side::Receiver, line: Output::DataTerminalReady, level: false }
    );
    assert_eq!(
        at(Stage::DrivingSenderRts).pending(),
        TransmitRequest::Drive { side: Side::Sender, line: Output::RequestToSend, level: false }
    );
    assert_eq!(
        at(Stage::DrivingReceiverRts).pending(),
        TransmitRequest::Drive { side: Side::Receiver, line: Output::RequestToSend, level: true }
    );
}

#[test]
fn later_stages_have_their_requests() {
    assert_eq!(at(Stage::Settling).pending(), TransmitRequest::AwaitLines { budget: 100_000_000 });
    assert_eq!(at(Stage::Writing).pending(), TransmitRequest::Write);
    assert_eq!(at(Stage::Arriving).pending(), TransmitRequest::AwaitArrival { count: 3, budget: 77 });
    assert_eq!(at(Stage::Measuring).pending(), TransmitRequest::Measure);
    assert_eq!(at(Stage::Reading { count: 9 }).pending(), TransmitRequest::Read { count: 9 });
}

#[test]
fn lines_are_driven_in_turn() {
    assert_eq!(step(Stage::DrivingSenderDtr, TransmitEvent::Done(Ok(()))), moved_to(Stage::DrivingReceiverDtr));
    assert_eq!(step(Stage::DrivingReceiverDtr, TransmitEvent::Done(Ok(()))), moved_to(Stage::DrivingSenderRts));
    assert_eq!(step(Stage::DrivingSenderRts, TransmitEvent::Done(Ok(()))), moved_to(Stage::DrivingReceiverRts));
    assert_eq!(step(Stage::DrivingReceiverRts, TransmitEvent::Done(Ok(()))), moved_to(Stage::Settling));
}

#[test]
fn lines_that_did_not_settle_are_tolerated() {
    assert_eq!(step(Stage::Settling, TransmitEvent::Waited(Ok(true))), moved_to(Stage::Writing));
    assert_eq!(step(Stage::Settling, TransmitEvent::Waited(Ok(false))), moved_to(Stage::Writing));
}

#[test]
fn written_pattern_is_waited_for() {
    assert_eq!(step(Stage::Writing, TransmitEvent::Done(Ok(()))), moved_to(Stage::Arriving));
}

#[test]
fn pattern_that_arrived_is_measured() {
    assert_eq!(step(Stage::Arriving, TransmitEvent::Waited(Ok(true))), moved_to(Stage::Measuring));
}

#[test]
fn pattern_that_did_not_arrive_times_out() {
    assert_eq!(step(Stage::Arriving, TransmitEvent::Waited(Ok(false))), TransmitStep::Finished(Err(Fault::TimedOut)));
}

#[test]
fn measured_bytes_are_read() {
    assert_eq!(step(Stage::Measuring, TransmitEvent::Measured(Ok(256))), moved_to(Stage::Reading { count: 256 }));
    assert_eq!(step(Stage::Measuring, TransmitEvent::Measured(Ok(0))), moved_to(Stage::Reading { count: 0 }));
}

#[test]
fn failed_measurement_ends_the_transfer_with_its_error() {
    assert_eq!(
        step(Stage::Measuring, TransmitEvent::Measured(Err("busy"))),
        TransmitStep::Finished(Err(Fault::Port("busy")))
    );
}

#[test]
fn received_pattern_passes_the_test() {
    assert_eq!(
        step(Stage::Reading { count: 3 }, TransmitEvent::Received(Ok(vec![1, 2, 3]))),
        TransmitStep::Finished(Ok(()))
    );
}

#[test]
fn received_bytes_that_differ_fail_the_test() {
    assert_eq!(
        step(Stage::Reading { count: 3 }, TransmitEvent::Received(Ok(vec![1, 2, 4]))),
        TransmitStep::Finished(Err(Fault::Mismatch { received: vec![1, 2, 4], expected: vec![1, 2, 3] }))
    );
}

#[test]
fn received_bytes_of_another_length_fail_the_test() {
    assert_eq!(
        step(Stage::Reading { count: 4 }, TransmitEvent::Received(Ok(vec![1, 2, 3, 4]))),
        TransmitStep::Finished(Err(Fault::Mismatch { received: vec![1, 2, 3, 4], expected: vec![1, 2, 3] }))
    );
    assert_eq!(
        step(Stage::Reading { count: 0 }, TransmitEvent::Received(Ok(vec![]))),
        TransmitStep::Finished(Err(Fault::Mismatch { received: vec![], expected: vec![1, 2, 3] }))
    );
}

#[test]
fn port_error_ends_the_transfer_at_any_step() {
    for stage in [
        Stage::DrivingSenderDtr,
        Stage::DrivingReceiverDtr,
        Stage::DrivingSenderRts,
        Stage::DrivingReceiverRts,
        Stage::Writing,
    ] {
        assert_eq!(step(stage, TransmitEvent::Done(Err("x"))), TransmitStep::Finished(Err(Fault::Port("x"))));
    }
    for stage in [Stage::Settling, Stage::Arriving] {
        assert_eq!(step(stage, TransmitEvent::Waited(Err("y"))), TransmitStep::Finished(Err(Fault::Port("y"))));
    }
    assert_eq!(step(Stage::Measuring, TransmitEvent::Measured(Err("m"))), TransmitStep::Finished(Err(Fault::Port("m"))));
    assert_eq!(
        step(Stage::Reading { count: 3 }, TransmitEvent::Received(Err("z"))),
        TransmitStep::Finished(Err(Fault::Port("z")))
    );
}

#[test]
fn transfer_event_out_of_turn_repeats_the_request() {
    assert_eq!(step(Stage::Settling, TransmitEvent::Done(Ok(()))), moved_to(Stage::Settling));
    assert_eq!(step(Stage::Writing, TransmitEvent::Waited(Ok(true))), moved_to(Stage::Writing));
    assert_eq!(step(Stage::Arriving, TransmitEvent::Measured(Ok(3))), moved_to(Stage::Arriving));
    assert_eq!(step(Stage::Measuring, TransmitEvent::Received(Ok(vec![1, 2, 3]))), moved_to(Stage::Measuring));
    assert_eq!(step(Stage::Reading { count: 3 }, TransmitEvent::Done(Err("late"))), moved_to(Stage::Reading { count: 3 }));
    assert_eq!(step(Stage::DrivingSenderDtr, TransmitEvent::Measured(Err("early"))), moved_to(Stage::DrivingSenderDtr));
}

#[test]
fn measurement_that_fails_after_arrival_is_reported_as_the_port_error() {
    let events = vec![
        TransmitEvent::Done(Ok(())),
        TransmitEvent::Done(Ok(())),
        TransmitEvent::Done(Ok(())),
        TransmitEvent::Done(Ok(())),
        TransmitEvent::Waited(Ok(true)),
        TransmitEvent::Done(Ok(())),
        TransmitEvent::Waited(Ok(true)),
        TransmitEvent::Measured(Err("unplugged")),
        TransmitEvent::Received(Ok((0..=255).collect())),
    ];
    let mut state = Transmission::full(PINS);
    let mut requests = vec![state.pending()];
    let mut verdict = None;
    for event in events {
        match test_transmit(state, event) {
            TransmitStep::Continue(next, asked) => {
                state = next;
                requests.push(asked);
            }
            TransmitStep::Finished(result) => {
                verdict = Some(result);
                break;
            }
        }
    }
    assert_eq!(verdict, Some(Err(Fault::Port("unplugged"))));
    assert_eq!(requests.len(), 8);
    assert_eq!(requests[7], TransmitRequest::Measure);
}

#[test]
fn clean_transfer_reads_as_many_bytes_as_were_counted() {
    let events: Vec<TransmitEvent<&'static str>> = vec![
        TransmitEvent::Done(Ok(())),
        TransmitEvent::Done(Ok(())),
        TransmitEvent::Done(Ok(())),
        TransmitEvent::Done(Ok(())),
        TransmitEvent::Waited(Ok(false)),
        TransmitEvent::Done(Ok(())),
        TransmitEvent::Waited(Ok(true)),
        TransmitEvent::Measured(Ok(256)),
        TransmitEvent::Received(Ok((0..=255).collect())),
    ];
    let mut state = Transmission::full(PINS);
    let mut requests = vec![state.pending()];
    let mut verdict = None;
    for event in events {
        match test_transmit(state, event) {
            TransmitStep::Continue(next, asked) => {
                state = next;
                requests.push(asked);
            }
            TransmitStep::Finished(result) => {
                verdict = Some(result);
                break;
            }
        }
    }
    assert_eq!(verdict, Some(Ok(())));
    assert_eq!(requests.len(), 9);
    assert_eq!(requests[6], TransmitRequest::AwaitArrival { count: 256, budget: 500_000_000 });
    assert_eq!(requests[8], TransmitRequest::Read { count: 256 });
}
