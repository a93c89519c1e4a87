//! The window session's message dispatch: a state machine over the platform
//! messages one window receives, and the pump that consumes them until the
//! window is destroyed.

use vstd::prelude::*;

verus! {

/// The identifier tag of the session's single clickable control,
/// distinguishing its activation from any other control's.
pub const CONTROL_ID: usize = 1001;

/// A platform message addressed to the session's window, reduced to what
/// the dispatch policy reads.
#[derive(Clone, Copy, Debug, PartialEq, Eq, Structural)]
pub enum WindowMsg {
    /// A child control reported activation, carrying its identifier.
    ControlActivated { id: usize },
    /// The window is being destroyed.
    Destroy,
    /// Any other message.
    Other,
}

/// What the dispatch entry point does with one message.
#[derive(Clone, Copy, Debug, PartialEq, Eq, Structural)]
pub enum MsgAction {
    /// Show the modal acknowledgment dialog, with its fixed title and text,
    /// then report the message as handled.
    ShowDialog,
    /// Ask the platform to end the message pump; the session is closing.
    QuitPump,
    /// Report the message as handled with no further effect.
    NoEffect,
    /// Hand the message to the platform's default handling.
    Delegate,
}

/// The dispatch policy as one function of the message.
pub open spec fn dispatch_of(m: WindowMsg) -> MsgAction {
    match m {
        WindowMsg::ControlActivated { id } => if id == CONTROL_ID {
            MsgAction::ShowDialog
        } else {
            MsgAction::NoEffect
        },
        WindowMsg::Destroy => MsgAction::QuitPump,
        WindowMsg::Other => MsgAction::Delegate,
    }
}

/// Dispatch one message of the session's window.
pub fn dispatch(m: &WindowMsg) -> (a: MsgAction)
    ensures
        a == dispatch_of(*m),
        a == MsgAction::ShowDialog <==> *m == (WindowMsg::ControlActivated { id: CONTROL_ID }),
        a == MsgAction::QuitPump <==> *m == WindowMsg::Destroy,
{
    match m {
        WindowMsg::ControlActivated { id } => {
            if *id == CONTROL_ID {
                MsgAction::ShowDialog
            } else {
                MsgAction::NoEffect
            }
        },
        WindowMsg::Destroy => MsgAction::QuitPump,
        WindowMsg::Other => MsgAction::Delegate,
    }
}

/// Activating the tagged control triggers exactly one dialog; activating
/// any other identifier, or any other message, never does.
pub proof fn lemma_dialog_iff_tagged_control(m: WindowMsg)
    ensures
        dispatch_of(m) == MsgAction::ShowDialog <==> m == (WindowMsg::ControlActivated {
            id: CONTROL_ID,
        }),
{
}

/// How many messages one pump consumes: everything up to and including the
/// first destroy notification, or the whole sequence if none arrives.
pub open spec fn pumped_len(msgs: Seq<WindowMsg>) -> nat
    decreases msgs.len(),
{
    if msgs.len() == 0 {
        0
    } else if msgs[0] == WindowMsg::Destroy {
        1
    } else {
        (1 + pumped_len(msgs.drop_first())) as nat
    }
}

/// Splitting off a destroy-free prefix: the pump consumes that prefix and
/// then exactly what it would consume of the rest.
proof fn lemma_pumped_len_skip(msgs: Seq<WindowMsg>, i: int)
    requires
        0 <= i <= msgs.len(),
        forall|j: int| 0 <= j < i ==> msgs[j] != WindowMsg::Destroy,
    ensures
        pumped_len(msgs) == i + pumped_len(msgs.skip(i)),
    decreases i,
{
    if i == 0 {
        assert(msgs.skip(0) =~= msgs);
    } else {
        lemma_pumped_len_skip(msgs, i - 1);
        let rest = msgs.skip(i - 1);
        assert(rest[0] == msgs[i - 1]);
        assert(rest.drop_first() =~= msgs.skip(i));
    }
}

/// Once the window is destroyed the pump returns: no message past the first
/// destroy notification is consumed.
pub proof fn lemma_pump_stops_at_destroy(msgs: Seq<WindowMsg>, d: int)
    requires
        0 <= d < msgs.len(),
        msgs[d] == WindowMsg::Destroy,
    ensures
        pumped_len(msgs) <= d + 1,
    decreases d,
{
    if msgs[0] != WindowMsg::Destroy {
        lemma_pump_stops_at_destroy(msgs.drop_first(), d - 1);
    }
}

/// Pump a sequence of messages, as the session's message loop does: each
/// consumed message is dispatched in order, and the pump returns once the
/// destroy notification has been dispatched.
pub fn pump_messages(msgs: &Vec<WindowMsg>) -> (acts: Vec<MsgAction>)
    ensures
        acts@.len() == pumped_len(msgs@),
        forall|i: int| 0 <= i < acts@.len() ==> acts@[i] == dispatch_of(msgs@[i]),
{
    let mut acts: Vec<MsgAction> = Vec::new();
    let mut i: usize = 0;
    while i < msgs.len()
        invariant
            i <= msgs@.len(),
            acts@.len() == i,
            forall|j: int| 0 <= j < i ==> msgs@[j] != WindowMsg::Destroy,
            forall|j: int| 0 <= j < i ==> acts@[j] == dispatch_of(msgs@[j]),
        decreases msgs@.len() - i,
    {
        let m = msgs[i];
        let a = dispatch(&m);
        acts.push(a);
        if m == WindowMsg::Destroy {
            proof {
                lemma_pumped_len_skip(msgs@, i as int);
                assert(msgs@.skip(i as int)[0] == msgs@[i as int]);
            }
            return acts;
        }
        i += 1;
    }
    proof {
        lemma_pumped_len_skip(msgs@, i as int);
    }
    acts
}

/// The fixed title of the modal acknowledgment dialog.
pub fn dialog_title() -> (r: &'static str)
    ensures
        r@ == "Action"@,
{
    "Action"
}

/// The fixed text of the modal acknowledgment dialog.
pub fn dialog_text() -> (r: &'static str)
    ensures
        r@ == "Button clicked!"@,
{
    "Button clicked!"
}

} // verus!
