//! The terminal session: raw mode, alternate screen and hidden cursor,
//! acquired in that order and released in the reverse order.

use vstd::prelude::*;

verus! {

/// The three terminal modes that a session changes.
#[derive(Clone, Copy, Debug, PartialEq, Eq, Structural)]
pub struct TerminalState {
    /// Keys are delivered one by one, unbuffered and without echo.
    pub raw_mode: bool,
    /// The secondary display buffer is shown.
    pub alternate_screen: bool,
    /// The text cursor is drawn.
    pub cursor_visible: bool,
}

/// One change of a terminal mode.
#[derive(Clone, Copy, Debug, PartialEq, Eq, Structural)]
pub enum TerminalOp {
    EnableRawMode,
    EnterAlternateScreen,
    HideCursor,
    ShowCursor,
    LeaveAlternateScreen,
    DisableRawMode,
}

impl TerminalState {
    /// The terminal as the shell leaves it: cooked input, main screen,
    /// cursor shown.
    pub open spec fn normal_spec() -> TerminalState {
        TerminalState { raw_mode: false, alternate_screen: false, cursor_visible: true }
    }

    /// The state that a successful `op` leaves behind.
    pub open spec fn after(self, op: TerminalOp) -> TerminalState {
        match op {
            TerminalOp::EnableRawMode => TerminalState { raw_mode: true, ..self },
            TerminalOp::EnterAlternateScreen => TerminalState { alternate_screen: true, ..self },
            TerminalOp::HideCursor => TerminalState { cursor_visible: false, ..self },
            TerminalOp::ShowCursor => TerminalState { cursor_visible: true, ..self },
            TerminalOp::LeaveAlternateScreen => TerminalState { alternate_screen: false, ..self },
            TerminalOp::DisableRawMode => TerminalState { raw_mode: false, ..self },
        }
    }

    /// The terminal as the shell leaves it.
    #[verifier::when_used_as_spec(normal_spec)]
    pub fn normal() -> (state: TerminalState)
        ensures
            state == TerminalState::normal_spec(),
    {
        TerminalState { raw_mode: false, alternate_screen: false, cursor_visible: true }
    }

    /// Applies a successful `op`.
    pub fn apply(self, op: TerminalOp) -> (state: TerminalState)
        ensures
            state == self.after(op),
    {
        match op {
            TerminalOp::EnableRawMode => TerminalState { raw_mode: true, ..self },
            TerminalOp::EnterAlternateScreen => TerminalState { alternate_screen: true, ..self },
            TerminalOp::HideCursor => TerminalState { cursor_visible: false, ..self },
            TerminalOp::ShowCursor => TerminalState { cursor_visible: true, ..self },
            TerminalOp::LeaveAlternateScreen => TerminalState { alternate_screen: false, ..self },
            TerminalOp::DisableRawMode => TerminalState { raw_mode: false, ..self },
        }
    }
}

/// How far a session has got: each level has the modes of the one before
/// it and one more.
#[derive(Clone, Copy, Debug, PartialEq, Eq, Structural)]
pub enum Level {
    /// Nothing is changed.
    Cooked,
    /// Raw mode is on.
    Raw,
    /// Raw mode and the alternate screen are on.
    Alternate,
    /// Raw mode and the alternate screen are on and the cursor is hidden.
    Hidden,
}

impl Level {
    /// The number of setup steps in effect at this level.
    pub open spec fn depth(self) -> nat {
        match self {
            Level::Cooked => 0,
            Level::Raw => 1,
            Level::Alternate => 2,
            Level::Hidden => 3,
        }
    }

    /// The terminal at this level when every operation so far has taken
    /// effect.
    pub open spec fn flags(self) -> TerminalState {
        TerminalState {
            raw_mode: self != Level::Cooked,
            alternate_screen: self == Level::Alternate || self == Level::Hidden,
            cursor_visible: self != Level::Hidden,
        }
    }

    /// The operation that leads one level up, if there is a level above.
    pub open spec fn setup_spec(self) -> Option<TerminalOp> {
        match self {
            Level::Cooked => Some(TerminalOp::EnableRawMode),
            Level::Raw => Some(TerminalOp::EnterAlternateScreen),
            Level::Alternate => Some(TerminalOp::HideCursor),
            Level::Hidden => None,
        }
    }

    /// The operation that leads one level down, if there is a level below.
    pub open spec fn restore_spec(self) -> Option<TerminalOp> {
        match self {
            Level::Hidden => Some(TerminalOp::ShowCursor),
            Level::Alternate => Some(TerminalOp::LeaveAlternateScreen),
            Level::Raw => Some(TerminalOp::DisableRawMode),
            Level::Cooked => None,
        }
    }

    /// The level above; `Hidden` is the top.
    pub open spec fn up_spec(self) -> Level {
        match self {
            Level::Cooked => Level::Raw,
            Level::Raw => Level::Alternate,
            Level::Alternate => Level::Hidden,
            Level::Hidden => Level::Hidden,
        }
    }

    /// The level below; `Cooked` is the bottom.
    pub open spec fn down_spec(self) -> Level {
        match self {
            Level::Hidden => Level::Alternate,
            Level::Alternate => Level::Raw,
            Level::Raw => Level::Cooked,
            Level::Cooked => Level::Cooked,
        }
    }

    /// The operation that leads one level up.
    #[verifier::when_used_as_spec(setup_spec)]
    pub fn setup(self) -> (op: Option<TerminalOp>)
        ensures
            op == self.setup_spec(),
    {
        match self {
            Level::Cooked => Some(TerminalOp::EnableRawMode),
            Level::Raw => Some(TerminalOp::EnterAlternateScreen),
            Level::Alternate => Some(TerminalOp::HideCursor),
            Level::Hidden => None,
        }
    }

    /// The operation that leads one level down.
    #[verifier::when_used_as_spec(restore_spec)]
    pub fn restore(self) -> (op: Option<TerminalOp>)
        ensures
            op == self.restore_spec(),
    {
        match self {
            Level::Hidden => Some(TerminalOp::ShowCursor),
            Level::Alternate => Some(TerminalOp::LeaveAlternateScreen),
            Level::Raw => Some(TerminalOp::DisableRawMode),
            Level::Cooked => None,
        }
    }

    /// The level above.
    #[verifier::when_used_as_spec(up_spec)]
    pub fn up(self) -> (level: Level)
        ensures
            level == self.up_spec(),
    {
        match self {
            Level::Cooked => Level::Raw,
            Level::Raw => Level::Alternate,
            Level::Alternate => Level::Hidden,
            Level::Hidden => Level::Hidden,
        }
    }

    /// The level below.
    #[verifier::when_used_as_spec(down_spec)]
    pub fn down(self) -> (level: Level)
        ensures
            level == self.down_spec(),
    {
        match self {
            Level::Hidden => Level::Alternate,
            Level::Alternate => Level::Raw,
            Level::Raw => Level::Cooked,
            Level::Cooked => Level::Cooked,
        }
    }
}

/// A terminal session: what has been acquired, which way it is heading, and
/// what became of the operations so far.
///
/// The session never touches the terminal. `pending` names the operation
/// that is due, the caller carries it out and reports the outcome to
/// `complete`. An operation that is reported as failed is taken to have
/// changed nothing.
#[derive(Clone, Copy, Debug, PartialEq, Eq, Structural)]
pub struct TerminalSession {
    /// The setup steps that have been applied and not yet undone.
    pub level: Level,
    /// Whether the session is on its way out, after `exit` or after a
    /// setup step that failed.
    pub releasing: bool,
    /// The terminal's modes, as far as the reported outcomes tell.
    pub terminal: TerminalState,
    /// The setup operation that failed, if one did.
    pub failed: Option<TerminalOp>,
    /// Whether an operation of the way out failed.
    pub leaked: bool,
}

impl TerminalSession {
    /// A session at its start: nothing acquired, heading in.
    pub open spec fn fresh() -> TerminalSession {
        TerminalSession {
            level: Level::Cooked,
            releasing: false,
            terminal: TerminalState::normal(),
            failed: None,
            leaked: false,
        }
    }

    /// The operation that is due: on the way in the next setup step, on the
    /// way out the step that undoes the last one still in effect.
    pub open spec fn pending_spec(self) -> Option<TerminalOp> {
        if self.releasing {
            self.level.restore()
        } else {
            self.level.setup()
        }
    }

    /// The session after the pending operation was reported as done (`ok`)
    /// or as failed.
    ///
    /// On the way in a success leads one level up, and a failure turns the
    /// session round at the level it has: what was applied is then undone
    /// step by step. On the way out every outcome leads one level down, and
    /// a failure is noted in `leaked`.
    pub open spec fn completed(self, ok: bool) -> TerminalSession {
        match self.pending_spec() {
            None => self,
            Some(op) => if self.releasing {
                TerminalSession {
                    level: self.level.down(),
                    terminal: if ok { self.terminal.after(op) } else { self.terminal },
                    leaked: self.leaked || !ok,
                    ..self
                }
            } else if ok {
                TerminalSession {
                    level: self.level.up(),
                    terminal: self.terminal.after(op),
                    ..self
                }
            } else {
                TerminalSession { releasing: true, failed: Some(op), ..self }
            },
        }
    }

    /// The session after a run of operations with the given outcomes, first
    /// outcome first.
    pub open spec fn after_outcomes(self, outcomes: Seq<bool>) -> TerminalSession
        decreases outcomes.len(),
    {
        if outcomes.len() == 0 {
            self
        } else {
            self.completed(outcomes[0]).after_outcomes(outcomes.skip(1))
        }
    }

    /// The session turned towards the way out.
    pub open spec fn exited(self) -> TerminalSession {
        TerminalSession { releasing: true, ..self }
    }

    /// Fully entered: all three setup steps are in effect.
    pub open spec fn is_active_spec(self) -> bool {
        !self.releasing && self.level == Level::Hidden
    }

    /// Fully left: on the way out with nothing more to undo.
    pub open spec fn is_released_spec(self) -> bool {
        self.releasing && self.level == Level::Cooked
    }

    /// What holds of every session that began with `enter`: every mode of
    /// the session's level is on in the terminal; the terminal differs
    /// from the level's modes exactly when an operation of the way out has
    /// failed; and a failure of either kind has turned the session towards
    /// the way out.
    pub open spec fn inv(self) -> bool {
        &&& self.level != Level::Cooked ==> self.terminal.raw_mode
        &&& self.level == Level::Alternate || self.level == Level::Hidden
            ==> self.terminal.alternate_screen
        &&& self.level == Level::Hidden ==> !self.terminal.cursor_visible
        &&& self.leaked <==> self.terminal != self.level.flags()
        &&& (self.failed is Some || self.leaked) ==> self.releasing
    }

    /// Begins a session. The first operation is then pending.
    pub fn enter() -> (session: TerminalSession)
        ensures
            session == TerminalSession::fresh(),
    {
        TerminalSession {
            level: Level::Cooked,
            releasing: false,
            terminal: TerminalState::normal(),
            failed: None,
            leaked: false,
        }
    }

    /// The operation to carry out next, or `None` when the session is
    /// fully entered or fully left.
    #[verifier::when_used_as_spec(pending_spec)]
    pub fn pending(self) -> (op: Option<TerminalOp>)
        ensures
            op == self.pending_spec(),
    {
        if self.releasing {
            self.level.restore()
        } else {
            self.level.setup()
        }
    }

    /// Reports the outcome of the pending operation. Without a pending
    /// operation nothing changes.
    pub fn complete(&mut self, ok: bool)
        ensures
            *final(self) == old(self).completed(ok),
    {
        match self.pending() {
            None => {},
            Some(op) => {
                if self.releasing {
                    self.level = self.level.down();
                    if ok {
                        self.terminal = self.terminal.apply(op);
                    } else {
                        self.leaked = true;
                    }
                } else if ok {
                    self.level = self.level.up();
                    self.terminal = self.terminal.apply(op);
                } else {
                    self.releasing = true;
                    self.failed = Some(op);
                }
            },
        }
    }

    /// Turns the session towards the way out. What is in effect is then
    /// undone, last step first.
    pub fn exit(&mut self)
        ensures
            *final(self) == old(self).exited(),
    {
        self.releasing = true;
    }

    /// Whether the session is fully entered.
    #[verifier::when_used_as_spec(is_active_spec)]
    pub fn is_active(self) -> (active: bool)
        ensures
            active == self.is_active_spec(),
    {
        !self.releasing && self.level == Level::Hidden
    }

    /// Whether the session is fully left.
    #[verifier::when_used_as_spec(is_released_spec)]
    pub fn is_released(self) -> (released: bool)
        ensures
            released == self.is_released_spec(),
    {
        self.releasing && self.level == Level::Cooked
    }
}

/// The invariant holds of a session at its start and survives every report
/// and every `exit`.
pub proof fn session_invariant_is_kept(session: TerminalSession, ok: bool)
    ensures
        TerminalSession::fresh().inv(),
        session.inv() ==> session.completed(ok).inv(),
        session.inv() ==> session.exited().inv(),
{
}

/// Entering asks for raw mode, then the alternate screen, then the hidden
/// cursor, and is then active with nothing more pending.
pub proof fn entering_takes_three_steps()
    ensures
        ({
            let s0 = TerminalSession::fresh();
            let s1 = s0.completed(true);
            let s2 = s1.completed(true);
            let s3 = s2.completed(true);
            &&& s0.pending() == Some(TerminalOp::EnableRawMode)
            &&& s1.pending() == Some(TerminalOp::EnterAlternateScreen)
            &&& s2.pending() == Some(TerminalOp::HideCursor)
            &&& s3.pending() is None
            &&& s3.is_active()
            &&& s3.terminal == Level::Hidden.flags()
        }),
{
}

/// Leaving an active session asks for the cursor, then the main screen,
/// then cooked mode: the reverse of entering. Each is asked for once,
/// whatever became of the one before, and the session is then released.
pub proof fn leaving_undoes_in_reverse(session: TerminalSession, o1: bool, o2: bool, o3: bool)
    requires
        session.is_active(),
    ensures
        ({
            let s0 = session.exited();
            let s1 = s0.completed(o1);
            let s2 = s1.completed(o2);
            let s3 = s2.completed(o3);
            &&& s0.pending() == Some(TerminalOp::ShowCursor)
            &&& s1.pending() == Some(TerminalOp::LeaveAlternateScreen)
            &&& s2.pending() == Some(TerminalOp::DisableRawMode)
            &&& s3.pending() is None
            &&& s3.is_released()
            &&& s3.leaked == (session.leaked || !o1 || !o2 || !o3)
        }),
{
}

/// A setup step that fails turns the session round where it stands: the
/// level and the terminal are as before, the failed operation is recorded,
/// and what is pending next undoes the last step that had been applied.
pub proof fn failed_setup_turns_round(session: TerminalSession)
    requires
        !session.releasing,
        session.pending() is Some,
    ensures
        ({
            let turned = session.completed(false);
            &&& turned.releasing
            &&& turned.failed == session.pending()
            &&& turned.level == session.level
            &&& turned.terminal == session.terminal
            &&& turned.leaked == session.leaked
            &&& turned.pending() == session.level.restore()
        }),
{
}

/// The way out is finite: a session that is heading out is released once
/// as many outcomes have been reported as steps were in effect, whatever
/// the outcomes.
pub proof fn way_out_ends(session: TerminalSession, outcomes: Seq<bool>)
    requires
        session.releasing,
        outcomes.len() >= session.level.depth(),
    ensures
        session.after_outcomes(outcomes).is_released(),
    decreases outcomes.len(),
{
    if outcomes.len() > 0 {
        let next = session.completed(outcomes[0]);
        way_out_ends(next, outcomes.skip(1));
    }
}

/// A released session has left the terminal as it was before the session
/// began, unless an operation of the way out failed; and if one did, the
/// terminal is not as it was.
pub proof fn released_terminal_is_normal(session: TerminalSession)
    requires
        session.inv(),
        session.is_released(),
    ensures
        session.terminal == TerminalState::normal() <==> !session.leaked,
{
}

} // verus!
