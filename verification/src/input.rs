//! The console input listener's decoding policy: which key chords become
//! which signals.

use vstd::prelude::*;

verus! {

/// The base key of a chord: a printable character, or anything else
/// (function keys, escape, arrows), none of which this program acts on.
#[derive(Clone, Copy, Debug, PartialEq, Eq, Structural)]
pub enum Key {
    Char(char),
    Other,
}

/// The modifier set of a chord. `other` stands for any modifier beyond
/// control, shift and alt that the terminal may report.
#[derive(Clone, Copy, Debug, PartialEq, Eq, Structural)]
pub struct Modifiers {
    pub ctrl: bool,
    pub shift: bool,
    pub alt: bool,
    pub other: bool,
}

/// One atomic input event: a base key combined with its modifiers.
#[derive(Clone, Copy, Debug, PartialEq, Eq, Structural)]
pub struct KeyChord {
    pub key: Key,
    pub mods: Modifiers,
}

/// An event read from the terminal: a key chord, or anything else
/// (resize, focus, paste), none of which this program acts on.
#[derive(Clone, Copy, Debug, PartialEq, Eq, Structural)]
pub enum InputEvent {
    Key(KeyChord),
    Other,
}

/// What the listener tells the driver about one event.
#[derive(Clone, Copy, Debug, PartialEq, Eq, Structural)]
pub enum Signal {
    OpenWindow,
    Quit,
    Ignore,
}

/// The control modifier is held and no other modifier is.
pub open spec fn ctrl_only(m: Modifiers) -> bool {
    m.ctrl && !m.shift && !m.alt && !m.other
}

/// The chord that opens a window: `h` or `H` with control alone.
pub open spec fn is_open_chord(e: InputEvent) -> bool {
    match e {
        InputEvent::Key(ch) => match ch.key {
            Key::Char(c) => (c == 'h' || c == 'H') && ctrl_only(ch.mods),
            Key::Other => false,
        },
        InputEvent::Other => false,
    }
}

/// The chord that quits the program: `q` or `Q` with control alone.
pub open spec fn is_quit_chord(e: InputEvent) -> bool {
    match e {
        InputEvent::Key(ch) => match ch.key {
            Key::Char(c) => (c == 'q' || c == 'Q') && ctrl_only(ch.mods),
            Key::Other => false,
        },
        InputEvent::Other => false,
    }
}

/// The decoding policy as one function of the event.
pub open spec fn signal_of(e: InputEvent) -> Signal {
    if is_open_chord(e) {
        Signal::OpenWindow
    } else if is_quit_chord(e) {
        Signal::Quit
    } else {
        Signal::Ignore
    }
}

/// Decode one terminal event into the signal the driver consumes.
pub fn next_signal(event: &InputEvent) -> (s: Signal)
    ensures
        s == signal_of(*event),
        s == Signal::OpenWindow <==> is_open_chord(*event),
        s == Signal::Quit <==> is_quit_chord(*event),
        s == Signal::Ignore <==> !is_open_chord(*event) && !is_quit_chord(*event),
{
    match event {
        InputEvent::Key(ch) => match ch.key {
            Key::Char(c) => {
                let m = ch.mods;
                if m.ctrl && !m.shift && !m.alt && !m.other {
                    if c == 'h' || c == 'H' {
                        Signal::OpenWindow
                    } else if c == 'q' || c == 'Q' {
                        Signal::Quit
                    } else {
                        Signal::Ignore
                    }
                } else {
                    Signal::Ignore
                }
            },
            Key::Other => Signal::Ignore,
        },
        InputEvent::Other => Signal::Ignore,
    }
}

/// An event that is neither hotkey chord is ignored, whatever key,
/// modifier combination or non-key event it carries.
pub proof fn lemma_other_events_ignored(e: InputEvent)
    requires
        !is_open_chord(e),
        !is_quit_chord(e),
    ensures
        signal_of(e) == Signal::Ignore,
{
}

/// The hotkeys decode the same way on every occurrence: decoding is a
/// function of the single event, with no state carried between events.
pub proof fn lemma_hotkeys_decode(e: InputEvent)
    ensures
        is_open_chord(e) ==> signal_of(e) == Signal::OpenWindow,
        is_quit_chord(e) ==> signal_of(e) == Signal::Quit,
{
}

} // verus!
