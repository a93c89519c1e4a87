use hotkey_window::input::{next_signal, InputEvent, Key, KeyChord, Modifiers, Signal};

fn chord(key: Key, ctrl: bool, shift: bool, alt: bool, other: bool) -> InputEvent {
    InputEvent::Key(KeyChord { key, mods: Modifiers { ctrl, shift, alt, other } })
}

#[test]
fn ctrl_h_opens_window() {
    assert_eq!(next_signal(&chord(Key::Char('h'), true, false, false, false)), Signal::OpenWindow);
    assert_eq!(next_signal(&chord(Key::Char('H'), true, false, false, false)), Signal::OpenWindow);
}

#[test]
fn ctrl_q_quits() {
    assert_eq!(next_signal(&chord(Key::Char('q'), true, false, false, false)), Signal::Quit);
    assert_eq!(next_signal(&chord(Key::Char('Q'), true, false, false, false)), Signal::Quit);
}

#[test]
fn plain_characters_are_ignored() {
    assert_eq!(next_signal(&chord(Key::Char('a'), false, false, false, false)), Signal::Ignore);
    assert_eq!(next_signal(&chord(Key::Char('h'), false, false, false, false)), Signal::Ignore);
    assert_eq!(next_signal(&chord(Key::Char('q'), false, false, false, false)), Signal::Ignore);
}

#[test]
fn extra_modifiers_are_ignored() {
    assert_eq!(next_signal(&chord(Key::Char('h'), true, true, false, false)), Signal::Ignore);
    assert_eq!(next_signal(&chord(Key::Char('h'), true, false, true, false)), Signal::Ignore);
    assert_eq!(next_signal(&chord(Key::Char('q'), true, false, false, true)), Signal::Ignore);
    assert_eq!(next_signal(&chord(Key::Char('q'), false, true, false, false)), Signal::Ignore);
}

#[test]
fn non_character_keys_are_ignored() {
    assert_eq!(next_signal(&chord(Key::Other, true, false, false, false)), Signal::Ignore);
    assert_eq!(next_signal(&chord(Key::Other, false, false, false, false)), Signal::Ignore);
}

#[test]
fn non_key_events_are_ignored() {
    assert_eq!(next_signal(&InputEvent::Other), Signal::Ignore);
}

#[test]
fn hotkeys_decode_the_same_every_time() {
    let open = chord(Key::Char('h'), true, false, false, false);
    let quit = chord(Key::Char('q'), true, false, false, false);
    for _ in 0..3 {
        assert_eq!(next_signal(&open), Signal::OpenWindow);
    }
    for _ in 0..3 {
        assert_eq!(next_signal(&quit), Signal::Quit);
    }
    assert_eq!(next_signal(&open), Signal::OpenWindow);
}
