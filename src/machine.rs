use vstd::prelude::*;

verus! {

/// How long the greeting waits between its two messages, in milliseconds.
pub const DELAY_MS: u64 = 1000;

/// A line that the greeting asks its driver to print.
#[derive(Clone, Copy, Debug, PartialEq, Eq)]
pub enum Message {
    Hi,
    Bye,
}

impl Message {
    pub open spec fn text_spec(self) -> Seq<char> {
        match self {
            Message::Hi => seq!['H', 'i', '!'],
            Message::Bye => seq!['B', 'y', 'e', '!'],
        }
    }

    /// The text of the line.
    pub fn text(&self) -> (r: &'static str)
        ensures
            r@ == self.text_spec(),
    {
        match self {
            Message::Hi => {
                let s = "Hi!";
                proof {
                    reveal_strlit("Hi!");
                }
                s
            },
            Message::Bye => {
                let s = "Bye!";
                proof {
                    reveal_strlit("Bye!");
                }
                s
            },
        }
    }
}

/// What one poll reports to its driver.
#[derive(Clone, Copy, Debug, PartialEq, Eq)]
pub enum Progress {
    Pending,
    Ready,
}

/// The result of a successful poll: a line to print, if any, and whether the
/// greeting has completed.
#[derive(Clone, Copy, Debug, PartialEq, Eq)]
pub struct Step {
    pub output: Option<Message>,
    pub progress: Progress,
}

/// A pending delay: it has elapsed once the clock reads `deadline_ms` or later.
#[derive(Clone, Copy, Debug, PartialEq, Eq)]
pub struct SleepTimer {
    pub deadline_ms: u64,
}

impl SleepTimer {
    /// The deadline of a delay of `DELAY_MS` armed at `now_ms`; a deadline past
    /// the end of the clock stays at its last reading.
    pub open spec fn deadline_after(now_ms: u64) -> u64 {
        if now_ms as int + DELAY_MS as int <= u64::MAX as int {
            (now_ms + DELAY_MS) as u64
        } else {
            u64::MAX
        }
    }

    /// Arms a delay of `DELAY_MS` at the clock reading `now_ms`.
    pub fn start(now_ms: u64) -> (r: SleepTimer)
        ensures
            r.deadline_ms == Self::deadline_after(now_ms),
    {
        SleepTimer { deadline_ms: now_ms.saturating_add(DELAY_MS) }
    }

    /// Whether the delay has elapsed at the clock reading `now_ms`.
    pub fn is_elapsed(&self, now_ms: u64) -> (r: bool)
        ensures
            r == (now_ms >= self.deadline_ms),
    {
        now_ms >= self.deadline_ms
    }
}

/// The delayed greeting as a state machine: `Init`, then `Wait1` while the
/// timer runs, then `Done`.
#[derive(Clone, Copy, Debug, PartialEq, Eq)]
pub enum GreetFutureStateMachine {
    Init,
    Wait1(SleepTimer),
    Done,
}

impl GreetFutureStateMachine {
    /// One poll at the clock reading `now_ms`: the next state and what the
    /// driver is told. A finished machine is never polled.
    pub open spec fn poll_spec(self, now_ms: u64) -> (Self, Step)
        recommends
            self != GreetFutureStateMachine::Done,
    {
        match self {
            GreetFutureStateMachine::Init => (
                GreetFutureStateMachine::Wait1(SleepTimer { deadline_ms: SleepTimer::deadline_after(now_ms) }),
                Step { output: Some(Message::Hi), progress: Progress::Pending },
            ),
            GreetFutureStateMachine::Wait1(timer) => if now_ms >= timer.deadline_ms {
                (GreetFutureStateMachine::Done, Step { output: Some(Message::Bye), progress: Progress::Ready })
            } else {
                (self, Step { output: None, progress: Progress::Pending })
            },
            GreetFutureStateMachine::Done => (self, arbitrary()),
        }
    }

    /// A machine that has not started.
    pub fn new() -> (r: Self)
        ensures
            r == GreetFutureStateMachine::Init,
    {
        GreetFutureStateMachine::Init
    }

    /// Advances the machine once, at the clock reading `now_ms`.
    ///
    /// From `Init` it asks for "Hi!", arms the timer and reports `Pending`.
    /// In `Wait1` it reports `Pending` until the timer has elapsed, then asks
    /// for "Bye!", moves to `Done` and reports `Ready`. Polling a finished
    /// machine is a programming error: callers test `is_finished` first.
    pub fn poll(&mut self, now_ms: u64) -> (r: Step)
        requires
            *old(self) != GreetFutureStateMachine::Done,
        ensures
            (*final(self), r) == old(self).poll_spec(now_ms),
    {
        match *self {
            GreetFutureStateMachine::Init => {
                let timer = SleepTimer::start(now_ms);
                *self = GreetFutureStateMachine::Wait1(timer);
                Step { output: Some(Message::Hi), progress: Progress::Pending }
            },
            GreetFutureStateMachine::Wait1(timer) => {
                if timer.is_elapsed(now_ms) {
                    *self = GreetFutureStateMachine::Done;
                    Step { output: Some(Message::Bye), progress: Progress::Ready }
                } else {
                    Step { output: None, progress: Progress::Pending }
                }
            },
            GreetFutureStateMachine::Done => unreached(),
        }
    }

    /// Whether the greeting has completed.
    pub fn is_finished(&self) -> (r: bool)
        ensures
            r == (*self == GreetFutureStateMachine::Done),
    {
        match self {
            GreetFutureStateMachine::Done => true,
            _ => false,
        }
    }

    /// How long a driver that polled at `now_ms` waits before it polls again:
    /// the time left on the running timer, none once it has elapsed, and no
    /// value outside `Wait1`.
    pub fn remaining_ms(&self, now_ms: u64) -> (r: Option<u64>)
        ensures
            r == (match *self {
                GreetFutureStateMachine::Wait1(timer) => Some(
                    if now_ms >= timer.deadline_ms {
                        0u64
                    } else {
                        (timer.deadline_ms - now_ms) as u64
                    },
                ),
                _ => None,
            }),
    {
        match self {
            GreetFutureStateMachine::Wait1(timer) => {
                if timer.is_elapsed(now_ms) {
                    Some(0)
                } else {
                    Some(timer.deadline_ms - now_ms)
                }
            },
            _ => None,
        }
    }

    /// The clock reading at which the running timer elapses, while waiting.
    pub fn deadline(&self) -> (r: Option<u64>)
        ensures
            r == (match *self {
                GreetFutureStateMachine::Wait1(timer) => Some(timer.deadline_ms),
                _ => None,
            }),
    {
        match self {
            GreetFutureStateMachine::Wait1(timer) => Some(timer.deadline_ms),
            _ => None,
        }
    }
}

} // verus!
