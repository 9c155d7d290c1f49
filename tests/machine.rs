use greet_sm::{GreetFutureStateMachine, Message, Progress, SleepTimer, Step, DELAY_MS};

fn hi() -> Step {
    Step { output: Some(Message::Hi), progress: Progress::Pending }
}

fn pending() -> Step {
    Step { output: None, progress: Progress::Pending }
}

fn bye() -> Step {
    Step { output: Some(Message::Bye), progress: Progress::Ready }
}

#[test]
fn new_machine_has_not_started() {
    let m = GreetFutureStateMachine::new();
    assert_eq!(m, GreetFutureStateMachine::Init);
    assert!(!m.is_finished());
    assert_eq!(m.deadline(), None);
    assert_eq!(m.remaining_ms(0), None);
}

#[test]
fn message_texts() {
    assert_eq!(Message::Hi.text(), "Hi!");
    assert_eq!(Message::Bye.text(), "Bye!");
}

#[test]
fn first_poll_says_hi_and_arms_timer() {
    let mut m = GreetFutureStateMachine::new();
    assert_eq!(m.poll(250), hi());
    assert_eq!(m, GreetFutureStateMachine::Wait1(SleepTimer { deadline_ms: 1250 }));
    assert_eq!(m.deadline(), Some(1250));
    assert_eq!(DELAY_MS, 1000);
}

#[test]
fn polls_before_timer_elapses_stay_pending() {
    let mut m = GreetFutureStateMachine::new();
    assert_eq!(m.poll(0), hi());
    let waiting = m;
    assert_eq!(m.poll(0), pending());
    assert_eq!(m, waiting);
    assert_eq!(m.poll(10), pending());
    assert_eq!(m, waiting);
    assert!(!m.is_finished());
}

#[test]
fn timer_elapses_exactly_at_deadline() {
    let mut m = GreetFutureStateMachine::new();
    assert_eq!(m.poll(0), hi());
    assert_eq!(m.poll(999), pending());
    assert_eq!(m.poll(1000), bye());
    assert_eq!(m, GreetFutureStateMachine::Done);
    assert!(m.is_finished());
}

#[test]
fn machine_is_finished_after_ready_poll() {
    let mut m = GreetFutureStateMachine::new();
    assert_eq!(m.poll(0), hi());
    assert!(!m.is_finished());
    assert_eq!(m.poll(1500), bye());
    assert!(m.is_finished());
    assert_eq!(m, GreetFutureStateMachine::Done);
    assert_eq!(m.deadline(), None);
    assert_eq!(m.remaining_ms(1600), None);
}

#[test]
fn finished_machine_reports_finished_every_time() {
    let m = GreetFutureStateMachine::Done;
    for _ in 0..3 {
        assert!(m.is_finished());
    }
}

#[test]
fn states_advance_in_order() {
    let mut m = GreetFutureStateMachine::new();
    let mut seen = vec![m];
    for now in [100u64, 200, 900, 1099, 1100] {
        m.poll(now);
        seen.push(m);
    }
    let waiting = GreetFutureStateMachine::Wait1(SleepTimer { deadline_ms: 1100 });
    assert_eq!(
        seen,
        vec![
            GreetFutureStateMachine::Init,
            waiting,
            waiting,
            waiting,
            waiting,
            GreetFutureStateMachine::Done,
        ]
    );
}

#[test]
fn lines_are_hi_then_bye_a_delay_apart() {
    let times = [40u64, 41, 500, 1039, 1040];
    let mut m = GreetFutureStateMachine::new();
    let mut lines = Vec::new();
    for now in times {
        let step = m.poll(now);
        if let Some(line) = step.output {
            lines.push((line.text(), now));
        }
    }
    assert_eq!(lines, vec![("Hi!", 40), ("Bye!", 1040)]);
    assert!(lines[1].1 - lines[0].1 >= DELAY_MS);
}

#[test]
fn timer_near_end_of_clock_saturates() {
    let mut m = GreetFutureStateMachine::new();
    assert_eq!(m.poll(u64::MAX - 10), hi());
    assert_eq!(m.deadline(), Some(u64::MAX));
    assert_eq!(m.poll(u64::MAX - 1), pending());
    assert_eq!(m.poll(u64::MAX), bye());
}

#[test]
fn sleep_timer_start_and_elapse() {
    let t = SleepTimer::start(7);
    assert_eq!(t, SleepTimer { deadline_ms: 1007 });
    assert!(!t.is_elapsed(1006));
    assert!(t.is_elapsed(1007));
    assert!(t.is_elapsed(5000));
}

#[test]
fn remaining_time_while_waiting() {
    let mut m = GreetFutureStateMachine::new();
    m.poll(300);
    assert_eq!(m.remaining_ms(300), Some(1000));
    assert_eq!(m.remaining_ms(1200), Some(100));
    assert_eq!(m.remaining_ms(1300), Some(0));
    assert_eq!(m.remaining_ms(4000), Some(0));
    m.poll(1300);
    assert_eq!(m.remaining_ms(1300), None);
}
