//! The game as one state machine: it asks for one operation at a time
//! (change a terminal mode, poll, read, play, wait) and moves on when it is
//! told how the operation went.

use crate::error::GameError;
use crate::event_loop::LoopState;
use crate::input::{InputEvent, KeySymbol};
use crate::sound::{Cue, SoundBank};
use crate::terminal::{TerminalOp, TerminalSession, TerminalState};
use vstd::prelude::*;

verus! {

/// What the game asks its driver to do next.
#[derive(Clone, Copy, Debug, PartialEq, Eq, Structural)]
pub enum Request {
    /// Carry out this terminal operation and answer `Done` or `Failed`.
    Terminal(TerminalOp),
    /// Check, without waiting, whether input is available, and answer
    /// `Ready` or `Failed`.
    Poll,
    /// Read the event that is available and answer `Input` or `Failed`.
    Read,
    /// Start the clip of this cue and answer at once, without waiting for
    /// its end.
    Play(Cue),
    /// Wait until every clip that was started has ended, then answer.
    Wait,
    /// Nothing is left to do.
    Finish,
}

/// The driver's answer to a request.
#[derive(Clone, Copy, Debug, PartialEq, Eq, Structural)]
pub enum Response {
    /// The operation was carried out.
    Done,
    /// The operation could not be carried out.
    Failed,
    /// The poll's answer: whether an event is available.
    Ready(bool),
    /// The event that was read.
    Input(InputEvent),
}

/// Where the game stands.
#[derive(Clone, Copy, Debug, PartialEq, Eq, Structural)]
pub enum Phase {
    /// The terminal session is being entered or left.
    Session,
    /// The loop is about to poll.
    Polling,
    /// The loop is about to read the event that a poll announced.
    Reading,
    /// A clip is about to be started.
    Playing(Cue),
    /// The loop has ended and the sounds are left to finish.
    Draining,
    /// All is done.
    Stopped,
}

/// The game's state as the contracts see it.
pub struct GameModel {
    pub phase: Phase,
    pub session: TerminalSession,
    pub state: LoopState,
    /// The first fatal error, if there was one.
    pub error: Option<GameError>,
    /// The names with a registered clip.
    pub clips: Set<Seq<char>>,
    /// Whether a clip was started that has not been waited for.
    pub outstanding: bool,
}

impl GameModel {
    /// The game before its first request, with the given clips.
    pub open spec fn start(clips: Set<Seq<char>>, outstanding: bool) -> GameModel {
        GameModel {
            phase: Phase::Session,
            session: TerminalSession::fresh(),
            state: LoopState::Running,
            error: None,
            clips,
            outstanding,
        }
    }

    /// The request that is due.
    pub open spec fn request(self) -> Request {
        match self.phase {
            Phase::Session => match self.session.pending() {
                Some(op) => Request::Terminal(op),
                None => Request::Finish,
            },
            Phase::Polling => Request::Poll,
            Phase::Reading => Request::Read,
            Phase::Playing(cue) => Request::Play(cue),
            Phase::Draining => Request::Wait,
            Phase::Stopped => Request::Finish,
        }
    }

    /// The game with its session replaced, at the phase that the new
    /// session calls for: more session work while an operation is pending,
    /// the loop once the session is active, the end once it is released.
    /// A setup operation that failed becomes the game's error, unless there
    /// is one already.
    pub open spec fn settled(self, session: TerminalSession) -> GameModel {
        GameModel {
            session,
            phase: if session.pending() is Some {
                Phase::Session
            } else if session.is_active() {
                Phase::Polling
            } else {
                Phase::Stopped
            },
            error: match (self.error, session.failed) {
                (None, Some(op)) => Some(GameError::Terminal(op)),
                _ => self.error,
            },
            ..self
        }
    }

    /// The game after a fatal error: the error is kept and the session is
    /// left at once.
    pub open spec fn failed(self, error: GameError) -> GameModel {
        GameModel { error: Some(error), ..self }.settled(self.session.exited())
    }

    /// The game after a key was read.
    ///
    /// The loop's rules give the new loop state and the key's cue. Without
    /// a cue polling goes on. A cue whose clip is registered is played
    /// next; one whose clip is missing is the fatal error `UnknownClip`.
    pub open spec fn handled(self, key: KeySymbol) -> GameModel {
        let (state, cue) = self.state.on_key(key);
        match cue {
            None => GameModel { state, phase: Phase::Polling, ..self },
            Some(c) => if self.clips.contains(c.clip()@) {
                GameModel { state, phase: Phase::Playing(c), outstanding: true, ..self }
            } else {
                GameModel { state, ..self }.failed(GameError::UnknownClip)
            },
        }
    }

    /// The game after the driver's answer to the request that was due.
    ///
    /// - A terminal operation counts as failed unless the answer is `Done`.
    /// - A poll that finds nothing leaves the game as it is; one that finds
    ///   input leads to reading. Any other answer is the fatal error
    ///   `Input`.
    /// - A read that brings an event has it decoded and handled. Any other
    ///   answer is the fatal error `Input`.
    /// - Playing and waiting cannot fail: whatever the answer, a running
    ///   loop polls again after playing, an exiting loop waits for the
    ///   sounds, and after waiting the session is left.
    /// - A stopped game stays as it is.
    pub open spec fn next(self, response: Response) -> GameModel {
        match self.phase {
            Phase::Session => self.settled(self.session.completed(response == Response::Done)),
            Phase::Polling => match response {
                Response::Ready(ready) => if ready {
                    GameModel { phase: Phase::Reading, ..self }
                } else {
                    self
                },
                _ => self.failed(GameError::Input),
            },
            Phase::Reading => match response {
                Response::Input(event) => self.handled(KeySymbol::of_event(event)),
                _ => self.failed(GameError::Input),
            },
            Phase::Playing(_) => GameModel {
                phase: if self.state == LoopState::Exiting {
                    Phase::Draining
                } else {
                    Phase::Polling
                },
                ..self
            },
            Phase::Draining => GameModel { outstanding: false, ..self }.settled(
                self.session.exited(),
            ),
            Phase::Stopped => self,
        }
    }

    /// The game after a run of answers, first answer first.
    pub open spec fn run(self, responses: Seq<Response>) -> GameModel
        decreases responses.len(),
    {
        if responses.len() == 0 {
            self
        } else {
            self.next(responses[0]).run(responses.skip(1))
        }
    }

    /// How the game ended, once it has stopped.
    pub open spec fn outcome(self) -> Option<Result<(), GameError>> {
        if self.phase is Stopped {
            Some(
                match self.error {
                    None => Ok(()),
                    Some(e) => Err(e),
                },
            )
        } else {
            None
        }
    }

    /// What holds of every game that began with `start`.
    pub open spec fn inv(self) -> bool {
        &&& self.session.inv()
        &&& self.phase is Session ==> self.session.pending() is Some
        &&& self.phase is Session && !self.session.releasing ==> self.state == LoopState::Running
        &&& self.phase is Stopped ==> self.session.is_released()
        &&& self.in_loop() ==> self.session.is_active() && self.error is None
        &&& self.phase is Polling || self.phase is Reading ==> self.state == LoopState::Running
        &&& self.phase matches Phase::Playing(cue) ==> self.outstanding && (self.state
            == LoopState::Exiting <==> cue == Cue::Lose)
        &&& self.phase is Draining ==> self.state == LoopState::Exiting
        &&& self.error is Some ==> self.session.releasing
        &&& self.session.failed matches Some(op) ==> self.error == Some(GameError::Terminal(op))
        &&& self.session.releasing && self.error is None ==> self.state == LoopState::Exiting
            && !self.outstanding
    }

    /// Whether the game is between entering and leaving the session.
    pub open spec fn in_loop(self) -> bool {
        self.phase is Polling || self.phase is Reading || self.phase is Playing
            || self.phase is Draining
    }
}

/// A game in progress.
pub struct Game {
    phase: Phase,
    session: TerminalSession,
    state: LoopState,
    error: Option<GameError>,
    bank: SoundBank,
}

impl View for Game {
    type V = GameModel;

    closed spec fn view(&self) -> GameModel {
        GameModel {
            phase: self.phase,
            session: self.session,
            state: self.state,
            error: self.error,
            clips: self.bank.registered(),
            outstanding: self.bank.outstanding(),
        }
    }
}

impl Game {
    /// A game with the given bank of clips. Its first request is the first
    /// step into the terminal session.
    pub fn new(bank: SoundBank) -> (game: Game)
        ensures
            game@ == GameModel::start(bank.registered(), bank.outstanding()),
    {
        Game {
            phase: Phase::Session,
            session: TerminalSession::enter(),
            state: LoopState::Running,
            error: None,
            bank,
        }
    }

    /// The request that is due.
    pub fn request(&self) -> (request: Request)
        ensures
            request == self@.request(),
    {
        match self.phase {
            Phase::Session => match self.session.pending() {
                Some(op) => Request::Terminal(op),
                None => Request::Finish,
            },
            Phase::Polling => Request::Poll,
            Phase::Reading => Request::Read,
            Phase::Playing(cue) => Request::Play(cue),
            Phase::Draining => Request::Wait,
            Phase::Stopped => Request::Finish,
        }
    }

    /// Takes the driver's answer to the request that was due.
    pub fn advance(&mut self, response: Response)
        ensures
            final(self)@ == old(self)@.next(response),
    {
        match self.phase {
            Phase::Session => {
                let ok = match response {
                    Response::Done => true,
                    _ => false,
                };
                self.session.complete(ok);
                self.settle();
            },
            Phase::Polling => match response {
                Response::Ready(ready) => {
                    if ready {
                        self.phase = Phase::Reading;
                    }
                },
                _ => self.fail(GameError::Input),
            },
            Phase::Reading => match response {
                Response::Input(event) => self.handle(KeySymbol::from_event(event)),
                _ => self.fail(GameError::Input),
            },
            Phase::Playing(_) => {
                if self.state == LoopState::Exiting {
                    self.phase = Phase::Draining;
                } else {
                    self.phase = Phase::Polling;
                }
            },
            Phase::Draining => {
                self.bank.wait();
                self.session.exit();
                self.settle();
            },
            Phase::Stopped => {},
        }
    }

    /// How the game ended: `None` while it is going on, then `Ok` after a
    /// clean quit and the error after a fatal one.
    pub fn outcome(&self) -> (outcome: Option<Result<(), GameError>>)
        ensures
            outcome == self@.outcome(),
    {
        match self.phase {
            Phase::Stopped => Some(
                match self.error {
                    None => Ok(()),
                    Some(e) => Err(e),
                },
            ),
            _ => None,
        }
    }

    /// The state of the event loop.
    pub fn state(&self) -> (state: LoopState)
        ensures
            state == self@.state,
    {
        self.state
    }

    /// The terminal session.
    pub fn session(&self) -> (session: TerminalSession)
        ensures
            session == self@.session,
    {
        self.session
    }

    /// The terminal's modes, as far as the answers tell.
    pub fn terminal(&self) -> (terminal: TerminalState)
        ensures
            terminal == self@.session.terminal,
    {
        self.session.terminal
    }

    /// Whether a clip was started that has not been waited for.
    pub fn has_outstanding(&self) -> (busy: bool)
        ensures
            busy == self@.outstanding,
    {
        self.bank.has_outstanding()
    }

    fn settle(&mut self)
        ensures
            final(self)@ == old(self)@.settled(old(self)@.session),
    {
        self.phase = if self.session.pending().is_some() {
            Phase::Session
        } else if self.session.is_active() {
            Phase::Polling
        } else {
            Phase::Stopped
        };
        if self.error.is_none() {
            match self.session.failed {
                Some(op) => {
                    self.error = Some(GameError::Terminal(op));
                },
                None => {},
            }
        }
    }

    fn fail(&mut self, error: GameError)
        ensures
            final(self)@ == old(self)@.failed(error),
    {
        self.error = Some(error);
        self.session.exit();
        self.settle();
    }

    fn handle(&mut self, key: KeySymbol)
        ensures
            final(self)@ == old(self)@.handled(key),
    {
        let (state, cue) = self.state.dispatch(key);
        self.state = state;
        match cue {
            None => {
                self.phase = Phase::Polling;
            },
            Some(c) => {
                match self.bank.play(c.clip()) {
                    Ok(_) => {
                        self.phase = Phase::Playing(c);
                    },
                    Err(_) => {
                        self.fail(GameError::UnknownClip);
                    },
                }
            },
        }
    }
}

/// Every game begins within the invariant.
pub proof fn start_is_within_invariant(clips: Set<Seq<char>>, outstanding: bool)
    ensures
        GameModel::start(clips, outstanding).inv(),
{
}

/// No answer leads out of the invariant.
pub proof fn next_keeps_invariant(game: GameModel, response: Response)
    requires
        game.inv(),
    ensures
        game.next(response).inv(),
{
}

/// No run of answers leads out of the invariant.
pub proof fn run_keeps_invariant(game: GameModel, responses: Seq<Response>)
    requires
        game.inv(),
    ensures
        game.run(responses).inv(),
    decreases responses.len(),
{
    if responses.len() > 0 {
        next_keeps_invariant(game, responses[0]);
        run_keeps_invariant(game.next(responses[0]), responses.skip(1));
    }
}

/// However a game goes, once it has stopped the terminal is as it was
/// before the game began: cooked, on the main screen, with the cursor
/// shown. This holds after a quit, after an input error, after a missing
/// clip and after a setup step that failed. There is one exception, and no
/// other: a terminal that refused an operation of the way out is not as it
/// was.
pub proof fn terminal_is_restored(
    clips: Set<Seq<char>>,
    outstanding: bool,
    responses: Seq<Response>,
)
    ensures
        ({
            let end = GameModel::start(clips, outstanding).run(responses);
            end.phase is Stopped ==> (end.session.terminal == TerminalState::normal()
                <==> !end.session.leaked)
        }),
{
    start_is_within_invariant(clips, outstanding);
    run_keeps_invariant(GameModel::start(clips, outstanding), responses);
}

/// A quit key ends the loop with the answer that brings it, whatever was
/// handled before: the loop is exiting at once and never polls or reads
/// again. What follows is the closing sound, or, where its clip is
/// missing, the way out with the error `UnknownClip`.
pub proof fn quit_exits_at_once(game: GameModel, event: InputEvent, later: Seq<Response>)
    requires
        game.inv(),
        game.phase is Reading,
        KeySymbol::of_event(event) == KeySymbol::Quit,
    ensures
        ({
            let next = game.next(Response::Input(event));
            &&& next.state == LoopState::Exiting
            &&& game.clips.contains(Cue::Lose.clip()@) ==> next.request() == Request::Play(
                Cue::Lose,
            ) && next.error is None
            &&& !game.clips.contains(Cue::Lose.clip()@) ==> next.request() == Request::Terminal(
                TerminalOp::ShowCursor,
            ) && next.error == Some(GameError::UnknownClip)
            &&& next.run(later).state == LoopState::Exiting
            &&& next.run(later).request() != Request::Poll
            &&& next.run(later).request() != Request::Read
        }),
{
    let next = game.next(Response::Input(event));
    next_keeps_invariant(game, Response::Input(event));
    exiting_stays(next, later);
    run_keeps_invariant(next, later);
}

/// The loop state `Exiting` is final.
pub proof fn exiting_stays(game: GameModel, responses: Seq<Response>)
    requires
        game.inv(),
        game.state == LoopState::Exiting,
    ensures
        game.run(responses).state == LoopState::Exiting,
    decreases responses.len(),
{
    if responses.len() > 0 {
        next_keeps_invariant(game, responses[0]);
        exiting_stays(game.next(responses[0]), responses.skip(1));
    }
}

/// While no input arrives the game stands still: every poll that finds
/// nothing leaves it exactly as it was, running and about to poll again.
/// It asks for no wait and no other operation in between.
pub proof fn idle_polling_stands_still(game: GameModel, responses: Seq<Response>)
    requires
        game.phase is Polling,
        forall|i: int| 0 <= i < responses.len() ==> responses[i] == Response::Ready(false),
    ensures
        game.run(responses) == game,
        game.request() == Request::Poll,
    decreases responses.len(),
{
    if responses.len() > 0 {
        idle_polling_stands_still(game, responses.skip(1));
    }
}

/// What a request tells about the game: polling and reading happen only
/// while the loop runs inside an active session, a clip other than the
/// closing one is played only then, and the sounds are waited for only
/// once the loop is exiting. So waiting never holds up the handling of
/// input.
pub proof fn requests_fit_the_loop(game: GameModel)
    requires
        game.inv(),
    ensures
        game.request() == Request::Poll || game.request() == Request::Read ==> game.state
            == LoopState::Running && game.session.is_active(),
        game.request() matches Request::Play(cue) ==> game.session.is_active() && (cue
            != Cue::Lose <==> game.state == LoopState::Running),
        game.request() == Request::Wait ==> game.state == LoopState::Exiting
            && game.session.is_active(),
        game.request() == Request::Finish <==> game.phase is Stopped,
{
}

/// The answers that a game needs at most from where it stands until it
/// has stopped, once the loop is exiting or an error has occurred.
pub open spec fn steps_to_stop(game: GameModel) -> nat {
    match game.phase {
        Phase::Playing(_) => 5,
        Phase::Draining => 4,
        Phase::Session => game.session.level.depth(),
        _ => 0,
    }
}

/// The end is near once the loop is exiting or an error has occurred:
/// whatever the answers, five of them bring the game to a stop, and it
/// stays stopped.
pub proof fn shutdown_is_bounded(game: GameModel, responses: Seq<Response>)
    requires
        game.inv(),
        game.state == LoopState::Exiting || game.error is Some,
        responses.len() >= steps_to_stop(game),
    ensures
        steps_to_stop(game) <= 5,
        game.run(responses).phase is Stopped,
    decreases responses.len(),
{
    if responses.len() > 0 {
        let next = game.next(responses[0]);
        next_keeps_invariant(game, responses[0]);
        shutdown_is_bounded(next, responses.skip(1));
    }
}

/// How a stopped game ended. After a clean quit the loop is exiting and
/// every sound has been waited for. After an error the outcome is that
/// error, and it is `Terminal` exactly when a setup step failed.
pub proof fn outcome_tells_the_end(game: GameModel)
    requires
        game.inv(),
        game.phase is Stopped,
    ensures
        game.outcome() is Some,
        game.outcome() == Some(Ok::<(), GameError>(())) ==> game.state == LoopState::Exiting
            && !game.outstanding && game.session.failed is None,
        game.session.failed matches Some(op) ==> game.outcome() == Some(
            Err::<(), GameError>(GameError::Terminal(op)),
        ),
        game.session.is_released(),
{
}

} // verus!
