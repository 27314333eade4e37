//! The input normalizer's edge-triggered key semantics.

use zbuffer_game::input::Event;
use zbuffer_game::input::Input;
use zbuffer_game::input::Modifiers;
use zbuffer_game::input::RawKey;
use zbuffer_game::input::RawSignal;
use zbuffer_game::input::CODE_CHAR;
use zbuffer_game::input::CODE_ENTER;

fn no_mods() -> Modifiers {
    Modifiers {
        shift: false,
        alt: false,
        ctrl: false,
    }
}

fn key_a(pressed: bool) -> RawSignal {
    RawSignal::Key(RawKey {
        code: CODE_CHAR,
        printable: 'a',
        pressed,
        shift: false,
        alt: false,
        ctrl: false,
    })
}

#[test]
fn first_press_emits_only_key_down() {
    let mut input = Input::new();
    let events = input.events(&vec![key_a(true)]);
    assert_eq!(events, vec![Event::KeyDown(CODE_CHAR, Some('a'), no_mods())]);
}

#[test]
fn repeated_press_emits_key_down_then_key_press() {
    let mut input = Input::new();
    let _ = input.events(&vec![key_a(true)]);
    let events = input.events(&vec![key_a(true)]);
    assert_eq!(
        events,
        vec![
            Event::KeyDown(CODE_CHAR, Some('a'), no_mods()),
            Event::KeyPress(CODE_CHAR, Some('a'), no_mods()),
        ]
    );
}

#[test]
fn release_emits_key_up_then_key_press_and_clears_the_table() {
    let mut input = Input::new();
    let _ = input.events(&vec![key_a(true)]);
    let events = input.events(&vec![key_a(false)]);
    assert_eq!(
        events,
        vec![
            Event::KeyUp(CODE_CHAR, Some('a'), no_mods()),
            Event::KeyPress(CODE_CHAR, Some('a'), no_mods()),
        ]
    );
    // The code is no longer held: the next press is a first press again.
    let events = input.events(&vec![key_a(true)]);
    assert_eq!(events, vec![Event::KeyDown(CODE_CHAR, Some('a'), no_mods())]);
}

#[test]
fn release_without_prior_press_still_emits_both_events() {
    let mut input = Input::new();
    let events = input.events(&vec![key_a(false)]);
    assert_eq!(
        events,
        vec![
            Event::KeyUp(CODE_CHAR, Some('a'), no_mods()),
            Event::KeyPress(CODE_CHAR, Some('a'), no_mods()),
        ]
    );
}

#[test]
fn whole_tap_sequence_in_one_poll() {
    // press, repeat, release in one frame: events keep signal order and each
    // synthetic KeyPress follows its trigger immediately
    let mut input = Input::new();
    let events = input.events(&vec![key_a(true), key_a(true), key_a(false)]);
    assert_eq!(
        events,
        vec![
            Event::KeyDown(CODE_CHAR, Some('a'), no_mods()),
            Event::KeyDown(CODE_CHAR, Some('a'), no_mods()),
            Event::KeyPress(CODE_CHAR, Some('a'), no_mods()),
            Event::KeyUp(CODE_CHAR, Some('a'), no_mods()),
            Event::KeyPress(CODE_CHAR, Some('a'), no_mods()),
        ]
    );
}

#[test]
fn non_printable_key_carries_no_character() {
    let mut input = Input::new();
    let events = input.events(&vec![RawSignal::Key(RawKey {
        code: CODE_ENTER,
        printable: '\r',
        pressed: true,
        shift: false,
        alt: false,
        ctrl: false,
    })]);
    assert_eq!(events, vec![Event::KeyDown(CODE_ENTER, None, no_mods())]);
}

#[test]
fn modifiers_are_carried_through() {
    let mut input = Input::new();
    let mods = Modifiers {
        shift: true,
        alt: false,
        ctrl: true,
    };
    let events = input.events(&vec![RawSignal::Key(RawKey {
        code: CODE_CHAR,
        printable: 'A',
        pressed: true,
        shift: true,
        alt: false,
        ctrl: true,
    })]);
    assert_eq!(events, vec![Event::KeyDown(CODE_CHAR, Some('A'), mods)]);
}

#[test]
fn mouse_signal_becomes_one_opaque_event() {
    let mut input = Input::new();
    let events = input.events(&vec![RawSignal::Mouse]);
    assert_eq!(events, vec![Event::Mouse]);
}
