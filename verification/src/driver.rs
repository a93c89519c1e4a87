//! The driving loop's state machine: it consumes the listener's signals one
//! at a time and decides what happens next, until a quit signal ends it.

use vstd::prelude::*;
use crate::input::Signal;

verus! {

/// The driver is either still listening for console events, or it has seen
/// the quit signal and is done.
#[derive(Clone, Copy, Debug, PartialEq, Eq, Structural)]
pub enum DriverState {
    Listening,
    Terminated,
}

/// What the driver does with one signal.
#[derive(Clone, Copy, Debug, PartialEq, Eq, Structural)]
pub enum DriverAction {
    /// The signal was ignored: keep listening, nothing else happens.
    Stay,
    /// Construct one window session and run its message pump to completion
    /// before any further console event is read.
    RunSession,
    /// Leave the loop; the program then shuts down normally.
    Exit,
}

/// The action a signal calls for, independent of any history.
pub open spec fn action_of(sig: Signal) -> DriverAction {
    match sig {
        Signal::OpenWindow => DriverAction::RunSession,
        Signal::Quit => DriverAction::Exit,
        Signal::Ignore => DriverAction::Stay,
    }
}

/// The state after consuming a signal while listening.
pub open spec fn state_after(sig: Signal) -> DriverState {
    match sig {
        Signal::Quit => DriverState::Terminated,
        _ => DriverState::Listening,
    }
}

/// Consume one signal. The driver only ever steps while it is listening:
/// once terminated it reads no further signal.
pub fn step(state: DriverState, sig: Signal) -> (r: (DriverState, DriverAction))
    requires
        state == DriverState::Listening,
    ensures
        r.0 == state_after(sig),
        r.1 == action_of(sig),
        r.0 == DriverState::Terminated <==> sig == Signal::Quit,
{
    match sig {
        Signal::OpenWindow => (DriverState::Listening, DriverAction::RunSession),
        Signal::Quit => (DriverState::Terminated, DriverAction::Exit),
        Signal::Ignore => (DriverState::Listening, DriverAction::Stay),
    }
}

/// How many signals of a sequence the driver consumes: everything up to and
/// including the first quit signal, or the whole sequence if none quits.
pub open spec fn consumed_len(sigs: Seq<Signal>) -> nat
    decreases sigs.len(),
{
    if sigs.len() == 0 {
        0
    } else if sigs[0] == Signal::Quit {
        1
    } else {
        (1 + consumed_len(sigs.drop_first())) as nat
    }
}

/// Splitting off a quit-free prefix: the driver consumes that prefix and
/// then exactly what it would consume of the rest.
proof fn lemma_consumed_len_skip(sigs: Seq<Signal>, i: int)
    requires
        0 <= i <= sigs.len(),
        forall|j: int| 0 <= j < i ==> sigs[j] != Signal::Quit,
    ensures
        consumed_len(sigs) == i + consumed_len(sigs.skip(i)),
    decreases i,
{
    if i == 0 {
        assert(sigs.skip(0) =~= sigs);
    } else {
        lemma_consumed_len_skip(sigs, i - 1);
        let rest = sigs.skip(i - 1);
        assert(rest[0] == sigs[i - 1]);
        assert(rest.drop_first() =~= sigs.skip(i));
    }
}

/// After a quit signal nothing further is read: the consumed prefix ends no
/// later than just past the first quit.
pub proof fn lemma_no_read_after_quit(sigs: Seq<Signal>, q: int)
    requires
        0 <= q < sigs.len(),
        sigs[q] == Signal::Quit,
    ensures
        consumed_len(sigs) <= q + 1,
    decreases q,
{
    if sigs[0] != Signal::Quit {
        lemma_no_read_after_quit(sigs.drop_first(), q - 1);
    }
}

/// Exactly the open signals make the driver run a window session; nothing
/// else does, and each open signal produces exactly one run, in order,
/// before the next signal is read.
pub proof fn lemma_one_session_per_open(sig: Signal)
    ensures
        action_of(sig) == DriverAction::RunSession <==> sig == Signal::OpenWindow,
{
}

/// Run the driver over a sequence of signals, as the driving loop does over
/// the listener's output: one action per consumed signal, in order, and
/// nothing is consumed after the first quit signal.
pub fn run_driver(signals: &Vec<Signal>) -> (actions: Vec<DriverAction>)
    ensures
        actions@.len() == consumed_len(signals@),
        forall|i: int| 0 <= i < actions@.len() ==> actions@[i] == action_of(signals@[i]),
{
    let mut actions: Vec<DriverAction> = Vec::new();
    let mut state = DriverState::Listening;
    let mut i: usize = 0;
    while i < signals.len()
        invariant
            i <= signals@.len(),
            actions@.len() == i,
            state == DriverState::Listening,
            forall|j: int| 0 <= j < i ==> signals@[j] != Signal::Quit,
            forall|j: int| 0 <= j < i ==> actions@[j] == action_of(signals@[j]),
        decreases signals@.len() - i,
    {
        let sig = signals[i];
        let (next, act) = step(state, sig);
        actions.push(act);
        if sig == Signal::Quit {
            proof {
                lemma_consumed_len_skip(signals@, i as int);
                assert(signals@.skip(i as int)[0] == signals@[i as int]);
            }
            return actions;
        }
        state = next;
        i += 1;
    }
    proof {
        lemma_consumed_len_skip(signals@, i as int);
    }
    actions
}

} // verus!
