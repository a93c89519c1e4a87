use hotkey_window::driver::{run_driver, step, DriverAction, DriverState};
use hotkey_window::input::{next_signal, InputEvent, Key, KeyChord, Modifiers, Signal};

fn chord(key: Key, ctrl: bool) -> InputEvent {
    InputEvent::Key(KeyChord {
        key,
        mods: Modifiers { ctrl, shift: false, alt: false, other: false },
    })
}

#[test]
fn step_runs_session_on_open() {
    let (state, action) = step(DriverState::Listening, Signal::OpenWindow);
    assert_eq!(state, DriverState::Listening);
    assert_eq!(action, DriverAction::RunSession);
}

#[test]
fn step_terminates_on_quit() {
    let (state, action) = step(DriverState::Listening, Signal::Quit);
    assert_eq!(state, DriverState::Terminated);
    assert_eq!(action, DriverAction::Exit);
}

#[test]
fn step_stays_on_ignore() {
    let (state, action) = step(DriverState::Listening, Signal::Ignore);
    assert_eq!(state, DriverState::Listening);
    assert_eq!(action, DriverAction::Stay);
}

#[test]
fn nothing_is_read_after_quit() {
    let signals = vec![
        Signal::Ignore,
        Signal::Quit,
        Signal::OpenWindow,
        Signal::Quit,
        Signal::Ignore,
    ];
    let actions = run_driver(&signals);
    assert_eq!(actions, vec![DriverAction::Stay, DriverAction::Exit]);
}

#[test]
fn every_open_runs_exactly_one_session() {
    let signals = vec![
        Signal::OpenWindow,
        Signal::OpenWindow,
        Signal::Ignore,
        Signal::OpenWindow,
    ];
    let actions = run_driver(&signals);
    assert_eq!(
        actions,
        vec![
            DriverAction::RunSession,
            DriverAction::RunSession,
            DriverAction::Stay,
            DriverAction::RunSession,
        ]
    );
}

#[test]
fn scenario_ignore_open_close_quit() {
    // The input sequence `a`, `Ctrl+H`, (window closed), `Ctrl+Q`.
    let events = vec![
        chord(Key::Char('a'), false),
        chord(Key::Char('h'), true),
        chord(Key::Char('q'), true),
    ];
    let mut signals = Vec::new();
    for e in &events {
        signals.push(next_signal(e));
    }
    assert_eq!(signals, vec![Signal::Ignore, Signal::OpenWindow, Signal::Quit]);
    let actions = run_driver(&signals);
    assert_eq!(
        actions,
        vec![DriverAction::Stay, DriverAction::RunSession, DriverAction::Exit]
    );
}
