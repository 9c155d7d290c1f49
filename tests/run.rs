use std::time::{Duration, Instant};

use greet_sm::{GreetFutureStateMachine, Progress};

/// Drives a fresh machine on a real timer and returns the lines it asked for.
async fn drive() -> Vec<&'static str> {
    let start = Instant::now();
    let mut machine = GreetFutureStateMachine::new();
    let mut lines = Vec::new();
    loop {
        let now_ms = u64::try_from(start.elapsed().as_millis()).unwrap();
        assert!(!machine.is_finished());
        let step = machine.poll(now_ms);
        if let Some(line) = step.output {
            lines.push(line.text());
        }
        if step.progress == Progress::Ready {
            return lines;
        }
        let wait = machine.remaining_ms(now_ms).unwrap();
        tokio::time::sleep(Duration::from_millis(wait)).await;
    }
}

#[test]
fn run_prints_hi_then_bye_after_one_second() {
    let runtime = tokio::runtime::Builder::new_current_thread().enable_time().build().unwrap();
    let started = Instant::now();
    let lines = runtime.block_on(drive());
    let elapsed = started.elapsed();
    assert_eq!(lines, vec!["Hi!", "Bye!"]);
    assert!(elapsed >= Duration::from_secs(1));
    assert!(elapsed < Duration::from_secs(5));
}
