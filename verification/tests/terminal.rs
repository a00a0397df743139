use invaders::terminal::{Level, TerminalOp, TerminalSession, TerminalState};

#[test]
fn the_normal_terminal_is_cooked_with_a_cursor() {
    let normal = TerminalState::normal();
    assert!(!normal.raw_mode);
    assert!(!normal.alternate_screen);
    assert!(normal.cursor_visible);
}

#[test]
fn each_operation_changes_its_own_mode() {
    let normal = TerminalState::normal();
    let raw = normal.apply(TerminalOp::EnableRawMode);
    assert_eq!(raw, TerminalState { raw_mode: true, alternate_screen: false, cursor_visible: true });
    let screen = raw.apply(TerminalOp::EnterAlternateScreen);
    assert_eq!(
        screen,
        TerminalState { raw_mode: true, alternate_screen: true, cursor_visible: true }
    );
    let hidden = screen.apply(TerminalOp::HideCursor);
    assert_eq!(
        hidden,
        TerminalState { raw_mode: true, alternate_screen: true, cursor_visible: false }
    );
    assert_eq!(hidden.apply(TerminalOp::ShowCursor), screen);
    assert_eq!(screen.apply(TerminalOp::LeaveAlternateScreen), raw);
    assert_eq!(raw.apply(TerminalOp::DisableRawMode), normal);
    assert_eq!(normal.apply(TerminalOp::ShowCursor), normal);
    assert_eq!(raw.apply(TerminalOp::EnableRawMode), raw);
}

#[test]
fn levels_go_up_and_down_by_one_step() {
    assert_eq!(Level::Cooked.setup(), Some(TerminalOp::EnableRawMode));
    assert_eq!(Level::Raw.setup(), Some(TerminalOp::EnterAlternateScreen));
    assert_eq!(Level::Alternate.setup(), Some(TerminalOp::HideCursor));
    assert_eq!(Level::Hidden.setup(), None);
    assert_eq!(Level::Hidden.restore(), Some(TerminalOp::ShowCursor));
    assert_eq!(Level::Alternate.restore(), Some(TerminalOp::LeaveAlternateScreen));
    assert_eq!(Level::Raw.restore(), Some(TerminalOp::DisableRawMode));
    assert_eq!(Level::Cooked.restore(), None);
    assert_eq!(Level::Cooked.up(), Level::Raw);
    assert_eq!(Level::Raw.up(), Level::Alternate);
    assert_eq!(Level::Alternate.up(), Level::Hidden);
    assert_eq!(Level::Hidden.up(), Level::Hidden);
    assert_eq!(Level::Hidden.down(), Level::Alternate);
    assert_eq!(Level::Alternate.down(), Level::Raw);
    assert_eq!(Level::Raw.down(), Level::Cooked);
    assert_eq!(Level::Cooked.down(), Level::Cooked);
}

#[test]
fn entering_asks_for_raw_mode_screen_and_cursor() {
    let mut session = TerminalSession::enter();
    assert_eq!(session.terminal, TerminalState::normal());
    assert!(!session.is_active());
    let mut ops = Vec::new();
    while let Some(op) = session.pending() {
        ops.push(op);
        session.complete(true);
    }
    assert_eq!(
        ops,
        vec![TerminalOp::EnableRawMode, TerminalOp::EnterAlternateScreen, TerminalOp::HideCursor]
    );
    assert!(session.is_active());
    assert!(!session.is_released());
    assert_eq!(session.level, Level::Hidden);
    assert_eq!(session.failed, None);
    assert_eq!(
        session.terminal,
        TerminalState { raw_mode: true, alternate_screen: true, cursor_visible: false }
    );
}

#[test]
fn leaving_undoes_in_reverse_order() {
    let mut session = TerminalSession::enter();
    while session.pending().is_some() {
        session.complete(true);
    }
    session.exit();
    assert!(!session.is_active());
    let mut ops = Vec::new();
    while let Some(op) = session.pending() {
        ops.push(op);
        session.complete(true);
    }
    assert_eq!(
        ops,
        vec![TerminalOp::ShowCursor, TerminalOp::LeaveAlternateScreen, TerminalOp::DisableRawMode]
    );
    assert!(session.is_released());
    assert!(!session.leaked);
    assert_eq!(session.terminal, TerminalState::normal());
}

#[test]
fn a_failed_step_is_rolled_back_from_where_it_failed() {
    let mut session = TerminalSession::enter();
    session.complete(true);
    session.complete(false);
    assert_eq!(session.failed, Some(TerminalOp::EnterAlternateScreen));
    assert!(session.releasing);
    assert_eq!(session.level, Level::Raw);
    assert_eq!(session.pending(), Some(TerminalOp::DisableRawMode));
    session.complete(true);
    assert_eq!(session.pending(), None);
    assert!(session.is_released());
    assert_eq!(session.terminal, TerminalState::normal());
    assert_eq!(session.failed, Some(TerminalOp::EnterAlternateScreen));
}

#[test]
fn a_failed_first_step_releases_at_once() {
    let mut session = TerminalSession::enter();
    session.complete(false);
    assert_eq!(session.failed, Some(TerminalOp::EnableRawMode));
    assert_eq!(session.pending(), None);
    assert!(session.is_released());
    assert_eq!(session.terminal, TerminalState::normal());
}

#[test]
fn the_way_out_goes_on_after_a_failure() {
    let mut session = TerminalSession::enter();
    while session.pending().is_some() {
        session.complete(true);
    }
    session.exit();
    session.complete(true);
    assert_eq!(session.pending(), Some(TerminalOp::LeaveAlternateScreen));
    session.complete(false);
    assert!(session.leaked);
    assert_eq!(session.pending(), Some(TerminalOp::DisableRawMode));
    session.complete(true);
    assert!(session.is_released());
    assert_eq!(session.failed, None);
    assert_eq!(
        session.terminal,
        TerminalState { raw_mode: false, alternate_screen: true, cursor_visible: true }
    );
}

#[test]
fn exit_may_come_before_the_session_is_active() {
    let mut session = TerminalSession::enter();
    session.complete(true);
    session.complete(true);
    session.exit();
    assert_eq!(session.pending(), Some(TerminalOp::LeaveAlternateScreen));
    session.complete(true);
    session.complete(true);
    assert!(session.is_released());
    assert_eq!(session.terminal, TerminalState::normal());
}

#[test]
fn exit_twice_is_exit_once() {
    let mut session = TerminalSession::enter();
    while session.pending().is_some() {
        session.complete(true);
    }
    session.exit();
    let once = session;
    session.exit();
    assert_eq!(session, once);
}

#[test]
fn a_report_without_a_pending_operation_changes_nothing() {
    let mut session = TerminalSession::enter();
    while session.pending().is_some() {
        session.complete(true);
    }
    let active = session;
    session.complete(true);
    assert_eq!(session, active);
    session.complete(false);
    assert_eq!(session, active);
}
