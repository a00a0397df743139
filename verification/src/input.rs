//! Keyboard decoding: from what the terminal reports to the few symbols
//! the game knows.

use vstd::prelude::*;

verus! {

/// A key, as far as the game tells keys apart.
#[derive(Clone, Copy, Debug, PartialEq, Eq, Structural)]
pub enum KeyCode {
    Esc,
    Char(char),
    Up,
    Down,
    Left,
    Right,
    Enter,
    Backspace,
    Tab,
    /// Any key without a variant of its own.
    Other,
}

/// One event read from the terminal.
#[derive(Clone, Copy, Debug, PartialEq, Eq, Structural)]
pub enum InputEvent {
    /// A key event.
    Key(KeyCode),
    /// The terminal was resized to so many columns and rows.
    Resize(u16, u16),
    FocusGained,
    FocusLost,
    Mouse,
    Paste,
}

/// What an event means to the game.
#[derive(Clone, Copy, Debug, PartialEq, Eq, Structural)]
pub enum KeySymbol {
    Quit,
    MoveLeft,
    MoveRight,
    ShootUp,
    /// Nothing the game reacts to.
    Other,
}

impl KeySymbol {
    /// The decoding table for keys: `Esc` and `q` quit, the up arrow
    /// shoots, the left and right arrows move, and every other key means
    /// nothing.
    pub open spec fn of_key(code: KeyCode) -> KeySymbol {
        match code {
            KeyCode::Esc => KeySymbol::Quit,
            KeyCode::Char(c) => if c == 'q' { KeySymbol::Quit } else { KeySymbol::Other },
            KeyCode::Up => KeySymbol::ShootUp,
            KeyCode::Left => KeySymbol::MoveLeft,
            KeyCode::Right => KeySymbol::MoveRight,
            _ => KeySymbol::Other,
        }
    }

    /// The decoding table for events: a key event means what its key
    /// means, and every other event means nothing.
    pub open spec fn of_event(event: InputEvent) -> KeySymbol {
        match event {
            InputEvent::Key(code) => KeySymbol::of_key(code),
            _ => KeySymbol::Other,
        }
    }

    /// Decodes a key.
    pub fn from_key(code: KeyCode) -> (symbol: KeySymbol)
        ensures
            symbol == KeySymbol::of_key(code),
    {
        match code {
            KeyCode::Esc => KeySymbol::Quit,
            KeyCode::Char(c) => if c == 'q' { KeySymbol::Quit } else { KeySymbol::Other },
            KeyCode::Up => KeySymbol::ShootUp,
            KeyCode::Left => KeySymbol::MoveLeft,
            KeyCode::Right => KeySymbol::MoveRight,
            _ => KeySymbol::Other,
        }
    }

    /// Decodes an event.
    pub fn from_event(event: InputEvent) -> (symbol: KeySymbol)
        ensures
            symbol == KeySymbol::of_event(event),
    {
        match event {
            InputEvent::Key(code) => KeySymbol::from_key(code),
            _ => KeySymbol::Other,
        }
    }
}

/// The events that quit: the `Esc` key and the character `q`.
pub open spec fn quits(event: InputEvent) -> bool {
    event == InputEvent::Key(KeyCode::Esc) || event == InputEvent::Key(KeyCode::Char('q'))
}

/// The events that shoot: the up arrow.
pub open spec fn shoots(event: InputEvent) -> bool {
    event == InputEvent::Key(KeyCode::Up)
}

/// The events that move left: the left arrow.
pub open spec fn moves_left(event: InputEvent) -> bool {
    event == InputEvent::Key(KeyCode::Left)
}

/// The events that move right: the right arrow.
pub open spec fn moves_right(event: InputEvent) -> bool {
    event == InputEvent::Key(KeyCode::Right)
}

/// One for a condition that holds, zero for one that does not.
pub open spec fn one_if(holds: bool) -> nat {
    if holds {
        1
    } else {
        0
    }
}

/// The number of the five symbols that `symbol` is equal to.
pub open spec fn matches_among_all(symbol: KeySymbol) -> nat {
    one_if(symbol == KeySymbol::Quit) + one_if(symbol == KeySymbol::MoveLeft) + one_if(
        symbol == KeySymbol::MoveRight,
    ) + one_if(symbol == KeySymbol::ShootUp) + one_if(symbol == KeySymbol::Other)
}

/// Decoding is total and unambiguous. Every event has exactly one of the
/// five symbols. Which one it has is decided by the four classes of events
/// above, which exclude each other, with `Other` for every event in none
/// of them.
pub proof fn decoding_is_a_partition(event: InputEvent)
    ensures
        matches_among_all(KeySymbol::of_event(event)) == 1,
        KeySymbol::of_event(event) == KeySymbol::Quit <==> quits(event),
        KeySymbol::of_event(event) == KeySymbol::ShootUp <==> shoots(event),
        KeySymbol::of_event(event) == KeySymbol::MoveLeft <==> moves_left(event),
        KeySymbol::of_event(event) == KeySymbol::MoveRight <==> moves_right(event),
        KeySymbol::of_event(event) == KeySymbol::Other <==> !(quits(event) || shoots(event)
            || moves_left(event) || moves_right(event)),
        one_if(quits(event)) + one_if(shoots(event)) + one_if(moves_left(event)) + one_if(
            moves_right(event),
        ) <= 1,
{
}

} // verus!
