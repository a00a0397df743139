//! The core of a small terminal game: a raw-mode terminal session, a bank of
//! named sound clips, keyboard decoding and the event loop that ties them
//! together.
//!
//! Nothing in this crate touches the terminal or the sound card. Every
//! component is a state machine: it says which operation has to be carried
//! out next and is told how that operation went. A driver performs the
//! operations; the rules that decide them, and what they guarantee, live
//! here.
//!
//! The module `bite` stands apart from the game: a bunch of grapes that is
//! eaten one grape at a time.

pub mod bite;
pub mod error;
pub mod event_loop;
pub mod game;
pub mod input;
pub mod sound;
pub mod terminal;
