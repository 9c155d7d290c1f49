//! A two-step delayed greeting written as an explicit polling state machine.
//!
//! The machine says "Hi!", arms a one-second timer, and says "Bye!" once the
//! timer has elapsed. Time is handed in by the driver as a reading of a
//! monotonic clock in milliseconds; the driver performs what each step asks.
use vstd::prelude::*;

pub mod machine;
pub mod runs;

pub use machine::{GreetFutureStateMachine, Message, Progress, SleepTimer, Step, DELAY_MS};
