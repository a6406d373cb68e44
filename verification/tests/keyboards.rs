use rskk::keyboards::keycodes::{KeyCombination, KeyCombinations};
use rskk::keyboards::notation::str_to_key_code_vector;
use rskk::keyboards::us::US;
use rskk::keyboards::{KeyCode, KeyEvents, Keyboard, MetaKey};

#[test]
fn keycodes_fulfilled() {
    let combination = KeyCombination::new(vec![KeyCode::from("ctrl"), KeyCode::from("j")]);
    assert!(combination.fulfilled(&vec![KeyCode::from("ctrl"), KeyCode::from("j")]));
    assert!(!combination.fulfilled(&vec![KeyCode::from("a")]));
}

#[test]
fn fulfilled() {
    let combination = KeyCombinations::new(vec![
        KeyCombination::new(vec![KeyCode::from("a")]),
        KeyCombination::new(vec![KeyCode::from("ctrl"), KeyCode::from("j")]),
    ]);
    assert!(combination.fulfilled(&vec![KeyCode::from("a")]));
    assert!(combination.fulfilled(&vec![KeyCode::from("ctrl"), KeyCode::from("j")]));
    assert!(!combination.fulfilled(&vec![KeyCode::from("b")]));
}

#[test]
fn helpers_it_works() {
    let events = str_to_key_code_vector("A[down:shift]b[up:shift]");
    assert_eq!(
        events,
        vec![
            KeyEvents::KeyDown(KeyCode::from("shift")),
            KeyEvents::KeyDown(KeyCode::from("a")),
            KeyEvents::KeyUp(KeyCode::from("a")),
            KeyEvents::KeyUp(KeyCode::from("shift")),
            KeyEvents::KeyDown(KeyCode::from("shift")),
            KeyEvents::KeyDown(KeyCode::from("b")),
            KeyEvents::KeyUp(KeyCode::from("b")),
            KeyEvents::KeyUp(KeyCode::from("shift")),
        ]
    );
}

#[test]
fn notation_names_and_white_space() {
    let events = str_to_key_code_vector("[ctrl]");
    assert_eq!(events, vec![KeyEvents::KeyDown(KeyCode::from("ctrl")), KeyEvents::KeyUp(KeyCode::from("ctrl"))]);

    let events = str_to_key_code_vector("[a]");
    assert_eq!(events, vec![KeyEvents::KeyDown(KeyCode::from("a")), KeyEvents::KeyUp(KeyCode::from("a"))]);

    let events = str_to_key_code_vector(" \n");
    assert_eq!(
        events,
        vec![
            KeyEvents::KeyDown(KeyCode::from(" ")),
            KeyEvents::KeyUp(KeyCode::from(" ")),
            KeyEvents::KeyDown(KeyCode::from("\n")),
            KeyEvents::KeyUp(KeyCode::from("\n")),
        ]
    );
}

#[test]
fn notation_stops_at_an_unclosed_bracket_or_unknown_action() {
    let events = str_to_key_code_vector("a[escape");
    assert_eq!(events, vec![KeyEvents::KeyDown(KeyCode::from("a")), KeyEvents::KeyUp(KeyCode::from("a"))]);
    let events = str_to_key_code_vector("[press:a]b");
    assert_eq!(events, vec![]);
    let events = str_to_key_code_vector("[repeat:a]");
    assert_eq!(events, vec![KeyEvents::KeyRepeat(KeyCode::from("a"))]);
}

#[test]
fn key_events_from_codes() {
    assert_eq!(KeyEvents::try_from((1, 30)).is_ok(), KeyCode::try_from(30).is_ok());
    assert!(KeyEvents::try_from((3, 30)).is_err());
    assert_eq!(KeyCode::try_from(0), Ok(KeyCode::from("a")));
    assert_eq!(KeyCode::try_from(0), Ok(KeyCode::Printable('a')));
    assert_eq!(KeyCode::try_from(53), Ok(KeyCode::Meta(MetaKey::Escape)));
    assert_eq!(KeyCode::try_from(36), KeyCode::try_from(52));
    assert!(KeyCode::try_from(10).is_err());
    assert_eq!(KeyEvents::try_from((1, 0)), Ok(KeyEvents::KeyDown(KeyCode::Printable('a'))));
    assert_eq!(KeyEvents::try_from((2, 0)), Ok(KeyEvents::KeyUp(KeyCode::Printable('a'))));
    assert!(KeyEvents::try_from((0, 0)).is_err());
    assert!(KeyEvents::try_from((1, 10)).is_err());
}

#[test]
fn us_keyboard_reports_shifted_characters() {
    let mut keyboard = US::new();
    keyboard.push_event(&KeyEvents::KeyDown(KeyCode::Meta(MetaKey::Shift)));
    keyboard.push_event(&KeyEvents::KeyDown(KeyCode::Printable('a')));
    assert_eq!(keyboard.last_character(), Some(KeyCode::Printable('A')));
    assert!(keyboard.is_pressing_shift());
    keyboard.push_event(&KeyEvents::KeyUp(KeyCode::Meta(MetaKey::Shift)));
    assert!(!keyboard.is_pressing_shift());
    assert!(keyboard.is_pressing(&KeyCode::Printable('a')));
}
