use invaders::error::{exit_code, GameError};
use invaders::terminal::TerminalOp;

#[test]
fn a_clean_quit_exits_with_zero() {
    assert_eq!(exit_code(Ok(())), 0);
}

#[test]
fn every_error_exits_with_one() {
    assert_eq!(exit_code(Err(GameError::Terminal(TerminalOp::EnableRawMode))), 1);
    assert_eq!(exit_code(Err(GameError::Terminal(TerminalOp::HideCursor))), 1);
    assert_eq!(exit_code(Err(GameError::Asset)), 1);
    assert_eq!(exit_code(Err(GameError::UnknownClip)), 1);
    assert_eq!(exit_code(Err(GameError::Input)), 1);
}
