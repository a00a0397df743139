use invaders::input::{InputEvent, KeyCode, KeySymbol};

#[test]
fn esc_and_q_quit() {
    assert_eq!(KeySymbol::from_key(KeyCode::Esc), KeySymbol::Quit);
    assert_eq!(KeySymbol::from_key(KeyCode::Char('q')), KeySymbol::Quit);
    assert_eq!(KeySymbol::from_event(InputEvent::Key(KeyCode::Esc)), KeySymbol::Quit);
    assert_eq!(KeySymbol::from_event(InputEvent::Key(KeyCode::Char('q'))), KeySymbol::Quit);
}

#[test]
fn arrows_shoot_and_move() {
    assert_eq!(KeySymbol::from_key(KeyCode::Up), KeySymbol::ShootUp);
    assert_eq!(KeySymbol::from_key(KeyCode::Left), KeySymbol::MoveLeft);
    assert_eq!(KeySymbol::from_key(KeyCode::Right), KeySymbol::MoveRight);
    assert_eq!(KeySymbol::from_event(InputEvent::Key(KeyCode::Up)), KeySymbol::ShootUp);
    assert_eq!(KeySymbol::from_event(InputEvent::Key(KeyCode::Left)), KeySymbol::MoveLeft);
    assert_eq!(KeySymbol::from_event(InputEvent::Key(KeyCode::Right)), KeySymbol::MoveRight);
}

#[test]
fn other_keys_mean_nothing() {
    for code in [
        KeyCode::Down,
        KeyCode::Enter,
        KeyCode::Backspace,
        KeyCode::Tab,
        KeyCode::Other,
        KeyCode::Char('Q'),
        KeyCode::Char('p'),
        KeyCode::Char('r'),
        KeyCode::Char(' '),
        KeyCode::Char('\u{1b}'),
    ] {
        assert_eq!(KeySymbol::from_key(code), KeySymbol::Other);
        assert_eq!(KeySymbol::from_event(InputEvent::Key(code)), KeySymbol::Other);
    }
}

#[test]
fn events_that_are_no_keys_mean_nothing() {
    for event in [
        InputEvent::Resize(0, 0),
        InputEvent::Resize(80, 24),
        InputEvent::FocusGained,
        InputEvent::FocusLost,
        InputEvent::Mouse,
        InputEvent::Paste,
    ] {
        assert_eq!(KeySymbol::from_event(event), KeySymbol::Other);
    }
}

#[test]
fn every_character_decodes_to_one_symbol() {
    let mut quits: u32 = 0;
    let mut others: u32 = 0;
    for c in '\0'..='\u{ff}' {
        match KeySymbol::from_key(KeyCode::Char(c)) {
            KeySymbol::Quit => quits += 1,
            KeySymbol::Other => others += 1,
            symbol => panic!("{:?} decodes to {:?}", c, symbol),
        }
    }
    assert_eq!(quits, 1);
    assert_eq!(others, 255);
}
