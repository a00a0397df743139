use invaders::error::GameError;
use invaders::sound::{Cue, SoundBank};

#[test]
fn a_new_bank_is_empty_and_idle() {
    let bank = SoundBank::new();
    assert!(!bank.is_registered("move"));
    assert!(!bank.is_registered(""));
    assert!(!bank.has_outstanding());
}

#[test]
fn a_loaded_clip_is_registered() {
    let mut bank = SoundBank::new();
    assert_eq!(bank.register("move", true), Ok(()));
    assert!(bank.is_registered("move"));
    assert!(!bank.is_registered("mov"));
    assert!(!bank.is_registered("move "));
    assert!(!bank.is_registered("Move"));
    assert!(!bank.has_outstanding());
}

#[test]
fn a_clip_that_did_not_load_is_an_asset_error() {
    let mut bank = SoundBank::new();
    assert_eq!(bank.register("lose", false), Err(GameError::Asset));
    assert!(!bank.is_registered("lose"));
    assert_eq!(bank.play("lose"), Err(GameError::UnknownClip));
}

#[test]
fn a_failed_load_keeps_an_earlier_binding() {
    let mut bank = SoundBank::new();
    assert_eq!(bank.register("lose", true), Ok(()));
    assert_eq!(bank.register("lose", false), Err(GameError::Asset));
    assert!(bank.is_registered("lose"));
}

#[test]
fn registering_twice_is_registering_once() {
    let mut bank = SoundBank::new();
    assert_eq!(bank.register("pew", true), Ok(()));
    assert_eq!(bank.register("pew", true), Ok(()));
    assert!(bank.is_registered("pew"));
    assert_eq!(bank.play("pew"), Ok(()));
}

#[test]
fn playing_an_unknown_name_is_an_error_and_no_playback() {
    let mut bank = SoundBank::new();
    assert_eq!(bank.register("move", true), Ok(()));
    assert_eq!(bank.play("pew"), Err(GameError::UnknownClip));
    assert!(!bank.has_outstanding());
    assert!(!bank.is_registered("pew"));
}

#[test]
fn playing_leaves_a_playback_outstanding_until_the_wait() {
    let mut bank = SoundBank::new();
    assert_eq!(bank.register("move", true), Ok(()));
    assert_eq!(bank.play("move"), Ok(()));
    assert!(bank.has_outstanding());
    assert_eq!(bank.play("move"), Ok(()));
    assert!(bank.has_outstanding());
    bank.wait();
    assert!(!bank.has_outstanding());
    assert!(bank.is_registered("move"));
}

#[test]
fn waiting_with_nothing_outstanding_changes_nothing() {
    let mut bank = SoundBank::new();
    assert_eq!(bank.register("move", true), Ok(()));
    bank.wait();
    assert!(!bank.has_outstanding());
    assert!(bank.is_registered("move"));
    bank.wait();
    assert!(!bank.has_outstanding());
}

#[test]
fn an_unknown_play_keeps_an_outstanding_playback() {
    let mut bank = SoundBank::new();
    assert_eq!(bank.register("move", true), Ok(()));
    assert_eq!(bank.play("move"), Ok(()));
    assert_eq!(bank.play("nope"), Err(GameError::UnknownClip));
    assert!(bank.has_outstanding());
}

#[test]
fn each_cue_has_its_clip() {
    assert_eq!(Cue::Move.clip(), "move");
    assert_eq!(Cue::Shoot.clip(), "pew");
    assert_eq!(Cue::Lose.clip(), "lose");
}
