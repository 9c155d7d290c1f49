//! What a driver observes over a whole run of polls.
use vstd::prelude::*;

use crate::machine::{GreetFutureStateMachine, Message, Progress, SleepTimer, Step, DELAY_MS};

verus! {

/// A driver polls `s` at the clock readings `times`, in order, until it has
/// completed; it makes no poll after that. This is the state after the first
/// `k` readings.
pub open spec fn state_after(s: GreetFutureStateMachine, times: Seq<u64>, k: nat) -> GreetFutureStateMachine
    decreases k,
{
    if k == 0 {
        s
    } else {
        let prev = state_after(s, times, (k - 1) as nat);
        if prev == GreetFutureStateMachine::Done {
            prev
        } else {
            prev.poll_spec(times[k - 1]).0
        }
    }
}

/// What the poll made at `times[k]` reports, where one is made.
pub open spec fn outcome(s: GreetFutureStateMachine, times: Seq<u64>, k: nat) -> Step
    recommends
        state_after(s, times, k) != GreetFutureStateMachine::Done,
{
    state_after(s, times, k).poll_spec(times[k as int]).1
}

/// The lines asked for at the reading `times[k]`: none where no poll is made.
pub open spec fn lines_of(s: GreetFutureStateMachine, times: Seq<u64>, k: nat) -> Seq<Message> {
    if state_after(s, times, k) == GreetFutureStateMachine::Done {
        Seq::empty()
    } else {
        match outcome(s, times, k).output {
            Some(m) => seq![m],
            None => Seq::empty(),
        }
    }
}

/// The lines asked for at the first `k` readings, in order.
pub open spec fn emitted(s: GreetFutureStateMachine, times: Seq<u64>, k: nat) -> Seq<Message>
    decreases k,
{
    if k == 0 {
        Seq::empty()
    } else {
        emitted(s, times, (k - 1) as nat) + lines_of(s, times, (k - 1) as nat)
    }
}

/// The timer that the first poll of a fresh machine arms.
pub open spec fn first_timer(times: Seq<u64>) -> GreetFutureStateMachine {
    GreetFutureStateMachine::Wait1(SleepTimer { deadline_ms: SleepTimer::deadline_after(times[0]) })
}

proof fn lemma_run_from_init(times: Seq<u64>, k: nat)
    requires
        1 <= k <= times.len(),
    ensures
        (state_after(GreetFutureStateMachine::Init, times, k) == first_timer(times)
            && emitted(GreetFutureStateMachine::Init, times, k) == seq![Message::Hi])
        || (state_after(GreetFutureStateMachine::Init, times, k) == GreetFutureStateMachine::Done
            && emitted(GreetFutureStateMachine::Init, times, k) == seq![Message::Hi, Message::Bye]),
        lines_of(GreetFutureStateMachine::Init, times, (k - 1) as nat) == seq![Message::Bye]
            ==> times[k - 1] >= SleepTimer::deadline_after(times[0]),
    decreases k,
{
    let s = GreetFutureStateMachine::Init;
    if k == 1 {
        assert(emitted(s, times, 0) == Seq::<Message>::empty());
        assert(emitted(s, times, 1) =~= seq![Message::Hi]);
        assert(seq![Message::Hi][0] != seq![Message::Bye][0]);
    } else {
        lemma_run_from_init(times, (k - 1) as nat);
        let prev = emitted(s, times, (k - 1) as nat);
        if state_after(s, times, (k - 1) as nat) == GreetFutureStateMachine::Done {
            assert(emitted(s, times, k) =~= prev);
            assert(seq![Message::Bye].len() == 1);
        } else if times[k - 1] >= SleepTimer::deadline_after(times[0]) {
            assert(emitted(s, times, k) =~= seq![Message::Hi, Message::Bye]);
        } else {
            assert(emitted(s, times, k) =~= prev);
            assert(seq![Message::Bye].len() == 1);
        }
    }
}

/// The states that a driver sees, polling a fresh machine at the clock
/// readings `times`, go `Init`, then `Wait1` with one and the same timer, then
/// `Done`, and never back: no state is skipped and none is revisited.
pub proof fn lemma_states_advance_in_order(times: Seq<u64>)
    ensures
        state_after(GreetFutureStateMachine::Init, times, 0) == GreetFutureStateMachine::Init,
        times.len() >= 1 ==> state_after(GreetFutureStateMachine::Init, times, 1) == first_timer(times),
        forall|k: nat|
            1 <= k <= times.len() ==> {
                ||| state_after(GreetFutureStateMachine::Init, times, k) == first_timer(times)
                ||| state_after(GreetFutureStateMachine::Init, times, k) == GreetFutureStateMachine::Done
            },
        forall|j: nat, k: nat|
            1 <= j <= k <= times.len() && state_after(GreetFutureStateMachine::Init, times, j)
                == GreetFutureStateMachine::Done ==> state_after(GreetFutureStateMachine::Init, times, k)
                == GreetFutureStateMachine::Done,
{
    assert forall|k: nat| 1 <= k <= times.len() implies {
        ||| state_after(GreetFutureStateMachine::Init, times, k) == first_timer(times)
        ||| state_after(GreetFutureStateMachine::Init, times, k) == GreetFutureStateMachine::Done
    } by {
        lemma_run_from_init(times, k);
    }
    assert forall|j: nat, k: nat|
        1 <= j <= k <= times.len() && state_after(GreetFutureStateMachine::Init, times, j)
            == GreetFutureStateMachine::Done implies state_after(GreetFutureStateMachine::Init, times, k)
            == GreetFutureStateMachine::Done by {
        lemma_done_stays_done(GreetFutureStateMachine::Init, times, j, k);
    }
}

proof fn lemma_done_stays_done(s: GreetFutureStateMachine, times: Seq<u64>, j: nat, k: nat)
    requires
        j <= k,
        state_after(s, times, j) == GreetFutureStateMachine::Done,
    ensures
        state_after(s, times, k) == GreetFutureStateMachine::Done,
    decreases k - j,
{
    if j < k {
        lemma_done_stays_done(s, times, j, (k - 1) as nat);
    }
}

/// The poll that reports `Ready` is the one that completes the machine, and
/// it is the last poll made: every later state is `Done`, which `poll` does
/// not accept. A poll that reports `Pending` leaves the machine unfinished.
pub proof fn lemma_ready_poll_is_last(s: GreetFutureStateMachine, times: Seq<u64>)
    ensures
        forall|k: nat|
            k < times.len() && #[trigger] state_after(s, times, k) != GreetFutureStateMachine::Done ==> (
            outcome(s, times, k).progress == Progress::Ready <==> state_after(s, times, k + 1)
                == GreetFutureStateMachine::Done),
        forall|j: nat, k: nat|
            j <= k <= times.len() && #[trigger] state_after(s, times, j) == GreetFutureStateMachine::Done
                ==> #[trigger] state_after(s, times, k) == GreetFutureStateMachine::Done,
{
    assert forall|k: nat|
        k < times.len() && #[trigger] state_after(s, times, k) != GreetFutureStateMachine::Done implies (
        outcome(s, times, k).progress == Progress::Ready <==> state_after(s, times, k + 1)
            == GreetFutureStateMachine::Done) by {
        assert(state_after(s, times, k + 1) == state_after(s, times, k).poll_spec(times[k as int]).0);
    }
    assert forall|j: nat, k: nat|
        j <= k <= times.len() && #[trigger] state_after(s, times, j) == GreetFutureStateMachine::Done
            implies #[trigger] state_after(s, times, k) == GreetFutureStateMachine::Done by {
        lemma_done_stays_done(s, times, j, k);
    }
}

/// Polling a fresh machine asks for exactly "Hi!" on the first poll and
/// "Bye!" on a later one, and for nothing else: the lines asked for so far
/// are "Hi!" alone while waiting, and "Hi!" then "Bye!" once completed. "Bye!"
/// comes no sooner than `DELAY_MS` after the first poll, unless that delay
/// would run past the end of the clock.
pub proof fn lemma_greeting_says_hi_then_bye(times: Seq<u64>)
    ensures
        times.len() >= 1 ==> outcome(GreetFutureStateMachine::Init, times, 0) == (Step {
            output: Some(Message::Hi),
            progress: Progress::Pending,
        }),
        forall|k: nat|
            1 <= k <= times.len() ==> {
                ||| emitted(GreetFutureStateMachine::Init, times, k) == seq![Message::Hi]
                ||| emitted(GreetFutureStateMachine::Init, times, k) == seq![Message::Hi, Message::Bye]
            },
        forall|k: nat|
            1 <= k <= times.len() ==> (state_after(GreetFutureStateMachine::Init, times, k)
                == GreetFutureStateMachine::Done <==> emitted(GreetFutureStateMachine::Init, times, k)
                == seq![Message::Hi, Message::Bye]),
        forall|k: nat|
            k < times.len() && lines_of(GreetFutureStateMachine::Init, times, k) == seq![Message::Bye]
                && times[0] + DELAY_MS <= u64::MAX ==> times[k as int] >= times[0] + DELAY_MS,
{
    assert forall|k: nat| 1 <= k <= times.len() implies {
        &&& {
            ||| emitted(GreetFutureStateMachine::Init, times, k) == seq![Message::Hi]
            ||| emitted(GreetFutureStateMachine::Init, times, k) == seq![Message::Hi, Message::Bye]
        }
        &&& (state_after(GreetFutureStateMachine::Init, times, k) == GreetFutureStateMachine::Done
            <==> emitted(GreetFutureStateMachine::Init, times, k) == seq![Message::Hi, Message::Bye])
    } by {
        lemma_run_from_init(times, k);
        assert(seq![Message::Hi] != seq![Message::Hi, Message::Bye]);
    }
    assert forall|k: nat|
        k < times.len() && lines_of(GreetFutureStateMachine::Init, times, k) == seq![Message::Bye]
            && times[0] + DELAY_MS <= u64::MAX implies times[k as int] >= times[0] + DELAY_MS by {
        lemma_run_from_init(times, k + 1);
    }
}

} // verus!
