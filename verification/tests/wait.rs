use serial_tester::wait::{begin, wait, Event, Phase, Request, Step, Wait, POLL_INTERVAL};

const MS: u64 = 1_000_000;

/// Drives a poll the way a caller does: the clock starts at `start` and moves
/// on by what each sleep asks for, and the condition gives the results in
/// `script`, one for each evaluation.
fn drive(start: u64, timeout: u64, script: Vec<Result<bool, &'static str>>) -> (Result<bool, &'static str>, usize, u64) {
    let mut now = start;
    let mut evaluations = 0;
    let mut script = script.into_iter();
    let (mut state, mut request) = begin(timeout);
    loop {
        let event = match request {
            Request::ReadClock => Event::Clock(now),
            Request::Sleep(pause) => {
                now += pause;
                Event::Clock(now)
            }
            Request::Evaluate => {
                evaluations += 1;
                Event::Observed(script.next().unwrap_or(Ok(false)))
            }
        };
        match wait(state, event) {
            Step::Continue(next, asked) => {
                state = next;
                request = asked;
            }
            Step::Finished(result) => return (result, evaluations, now),
        }
    }
}

#[test]
fn poll_interval_is_one_millisecond() {
    assert_eq!(POLL_INTERVAL, 1_000_000);
}

#[test]
fn begin_asks_for_the_clock() {
    let (state, request) = begin(100 * MS);
    assert_eq!(state, Wait { timeout: 100 * MS, armed_at: 0, phase: Phase::Arming });
    assert_eq!(request, Request::ReadClock);
}

#[test]
fn first_clock_reading_arms_the_poll() {
    let (state, _) = begin(100 * MS);
    let step: Step<()> = wait(state, Event::Clock(7_000));
    assert_eq!(
        step,
        Step::Continue(Wait { timeout: 100 * MS, armed_at: 7_000, phase: Phase::Timing }, Request::ReadClock)
    );
}

#[test]
fn reading_before_the_deadline_asks_for_the_condition() {
    let state = Wait { timeout: 100, armed_at: 1_000, phase: Phase::Timing };
    let step: Step<()> = wait(state, Event::Clock(1_099));
    assert_eq!(
        step,
        Step::Continue(Wait { timeout: 100, armed_at: 1_000, phase: Phase::Probing }, Request::Evaluate)
    );
}

#[test]
fn reading_at_the_deadline_ends_the_poll() {
    let state = Wait { timeout: 100, armed_at: 1_000, phase: Phase::Timing };
    let step: Step<()> = wait(state, Event::Clock(1_100));
    assert_eq!(step, Step::Finished(Ok(false)));
    let step: Step<()> = wait(state, Event::Clock(u64::MAX));
    assert_eq!(step, Step::Finished(Ok(false)));
}

#[test]
fn deadline_beyond_the_clock_range_is_never_reached() {
    let state = Wait { timeout: u64::MAX, armed_at: u64::MAX, phase: Phase::Timing };
    let step: Step<()> = wait(state, Event::Clock(u64::MAX));
    assert_eq!(
        step,
        Step::Continue(Wait { timeout: u64::MAX, armed_at: u64::MAX, phase: Phase::Probing }, Request::Evaluate)
    );
}

#[test]
fn reading_before_the_arming_counts_as_early() {
    let state = Wait { timeout: 100, armed_at: 1_000, phase: Phase::Timing };
    let step: Step<()> = wait(state, Event::Clock(10));
    assert_eq!(
        step,
        Step::Continue(Wait { timeout: 100, armed_at: 1_000, phase: Phase::Probing }, Request::Evaluate)
    );
}

#[test]
fn condition_that_holds_ends_the_poll() {
    let state = Wait { timeout: 100, armed_at: 0, phase: Phase::Probing };
    let step: Step<()> = wait(state, Event::Observed(Ok(true)));
    assert_eq!(step, Step::Finished(Ok(true)));
}

#[test]
fn condition_that_does_not_hold_asks_for_a_pause() {
    let state = Wait { timeout: 100, armed_at: 5, phase: Phase::Probing };
    let step: Step<()> = wait(state, Event::Observed(Ok(false)));
    assert_eq!(
        step,
        Step::Continue(Wait { timeout: 100, armed_at: 5, phase: Phase::Timing }, Request::Sleep(1_000_000))
    );
}

#[test]
fn condition_that_fails_ends_the_poll_with_its_error() {
    let state = Wait { timeout: 100, armed_at: 0, phase: Phase::Probing };
    let step = wait(state, Event::Observed(Err("gone")));
    assert_eq!(step, Step::Finished(Err("gone")));
}

#[test]
fn event_out_of_turn_repeats_the_request() {
    let arming = Wait { timeout: 100, armed_at: 0, phase: Phase::Arming };
    assert_eq!(wait(arming, Event::Observed(Ok::<bool, ()>(true))), Step::Continue(arming, Request::ReadClock));
    let timing = Wait { timeout: 100, armed_at: 0, phase: Phase::Timing };
    assert_eq!(wait(timing, Event::Observed(Err("late"))), Step::Continue(timing, Request::ReadClock));
    let probing = Wait { timeout: 100, armed_at: 0, phase: Phase::Probing };
    assert_eq!(wait(probing, Event::<()>::Clock(1_000)), Step::Continue(probing, Request::Evaluate));
}

#[test]
fn poll_returns_true_as_soon_as_the_condition_holds() {
    let (result, evaluations, now) = drive(50, 100 * MS, vec![Ok(false), Ok(false), Ok(true), Ok(true)]);
    assert_eq!(result, Ok(true));
    assert_eq!(evaluations, 3);
    assert_eq!(now, 50 + 2 * MS);
}

#[test]
fn poll_gives_up_after_its_timeout() {
    let (result, evaluations, now) = drive(0, 100 * MS, vec![]);
    assert_eq!(result, Ok(false));
    assert_eq!(evaluations, 100);
    assert_eq!(now, 100 * MS);
}

#[test]
fn poll_with_no_time_never_evaluates() {
    let (result, evaluations, _) = drive(123, 0, vec![Ok(true)]);
    assert_eq!(result, Ok(false));
    assert_eq!(evaluations, 0);
}

#[test]
fn poll_stops_at_the_first_error() {
    let (result, evaluations, _) = drive(0, 100 * MS, vec![Ok(false), Err("unplugged"), Ok(true)]);
    assert_eq!(result, Err("unplugged"));
    assert_eq!(evaluations, 2);
}
