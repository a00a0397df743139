//! The rules of the event loop: what a key does to the loop and which
//! sound it triggers.

use crate::input::KeySymbol;
use crate::sound::Cue;
use vstd::prelude::*;

verus! {

/// The state of the event loop.
#[derive(Clone, Copy, Debug, PartialEq, Eq, Structural)]
pub enum LoopState {
    /// Keys are polled and handled.
    Running,
    /// A quit key was handled. No state follows this one.
    Exiting,
}

/// The sound that a key triggers while the loop runs: moving to either
/// side sounds the same, and a key that means nothing is silent.
pub open spec fn cue_of(key: KeySymbol) -> Option<Cue> {
    match key {
        KeySymbol::Quit => Some(Cue::Lose),
        KeySymbol::ShootUp => Some(Cue::Shoot),
        KeySymbol::MoveLeft => Some(Cue::Move),
        KeySymbol::MoveRight => Some(Cue::Move),
        KeySymbol::Other => None,
    }
}

impl LoopState {
    /// The state after one key, and the sound that the key triggers.
    ///
    /// A running loop sounds the key's cue and goes on running, unless the
    /// key quits. Once the loop is exiting, keys do nothing.
    pub open spec fn on_key(self, key: KeySymbol) -> (LoopState, Option<Cue>) {
        match self {
            LoopState::Running => (
                if key == KeySymbol::Quit {
                    LoopState::Exiting
                } else {
                    LoopState::Running
                },
                cue_of(key),
            ),
            LoopState::Exiting => (LoopState::Exiting, None),
        }
    }

    /// The state after a batch of keys, handled in the order of arrival,
    /// and the sounds that they trigger, in that order.
    pub open spec fn on_keys(self, keys: Seq<KeySymbol>) -> (LoopState, Seq<Cue>)
        decreases keys.len(),
    {
        if keys.len() == 0 {
            (self, Seq::empty())
        } else {
            let (state, cues) = self.on_keys(keys.drop_last());
            let (next, cue) = state.on_key(keys.last());
            (
                next,
                match cue {
                    Some(c) => cues.push(c),
                    None => cues,
                },
            )
        }
    }

    /// Handles one key.
    pub fn dispatch(self, key: KeySymbol) -> (result: (LoopState, Option<Cue>))
        ensures
            result == self.on_key(key),
    {
        match self {
            LoopState::Exiting => (LoopState::Exiting, None),
            LoopState::Running => match key {
                KeySymbol::Quit => (LoopState::Exiting, Some(Cue::Lose)),
                KeySymbol::ShootUp => (LoopState::Running, Some(Cue::Shoot)),
                KeySymbol::MoveLeft => (LoopState::Running, Some(Cue::Move)),
                KeySymbol::MoveRight => (LoopState::Running, Some(Cue::Move)),
                KeySymbol::Other => (LoopState::Running, None),
            },
        }
    }

    /// Handles a batch of keys in the order of arrival, and stops at the
    /// first that quits.
    pub fn drain(self, keys: &Vec<KeySymbol>) -> (result: (LoopState, Vec<Cue>))
        ensures
            result.0 == self.on_keys(keys@).0,
            result.1@ == self.on_keys(keys@).1,
    {
        let mut state = self;
        let mut cues: Vec<Cue> = Vec::new();
        let mut i: usize = 0;
        while i < keys.len() && state == LoopState::Running
            invariant
                i <= keys.len(),
                state == self.on_keys(keys@.take(i as int)).0,
                cues@ == self.on_keys(keys@.take(i as int)).1,
            decreases keys.len() - i,
        {
            assert(keys@.take(i + 1).drop_last() == keys@.take(i as int));
            let (next, cue) = state.dispatch(keys[i]);
            state = next;
            match cue {
                Some(c) => cues.push(c),
                None => {},
            }
            i += 1;
        }
        proof {
            exiting_is_final(self, keys@, i as int);
            assert(keys@.take(keys@.len() as int) == keys@);
        }
        (state, cues)
    }
}

/// Once a batch has led to `Exiting`, the rest of it changes nothing:
/// neither the state nor the sounds.
pub proof fn exiting_is_final(start: LoopState, keys: Seq<KeySymbol>, handled: int)
    requires
        0 <= handled <= keys.len(),
        start.on_keys(keys.take(handled)).0 == LoopState::Exiting || handled == keys.len(),
    ensures
        start.on_keys(keys) == start.on_keys(keys.take(handled)),
    decreases keys.len() - handled,
{
    if handled == keys.len() {
        assert(keys.take(handled) == keys);
    } else {
        assert(keys.take(handled + 1).drop_last() == keys.take(handled));
        exiting_is_final(start, keys, handled + 1);
    }
}

/// A quit key ends the loop in the batch in which it arrives, however many
/// keys came before it: the loop is then exiting, the sounds are those of
/// the keys before the quit key followed by the closing sound, and no key
/// behind the quit key is handled.
pub proof fn quit_ends_the_batch(keys: Seq<KeySymbol>, at: int)
    requires
        0 <= at < keys.len(),
        keys[at] == KeySymbol::Quit,
        forall|j: int| 0 <= j < at ==> keys[j] != KeySymbol::Quit,
    ensures
        LoopState::Running.on_keys(keys).0 == LoopState::Exiting,
        LoopState::Running.on_keys(keys).1 == LoopState::Running.on_keys(keys.take(at)).1.push(
            Cue::Lose,
        ),
        LoopState::Running.on_keys(keys.take(at)).0 == LoopState::Running,
{
    running_without_quit(keys.take(at));
    assert(keys.take(at + 1).drop_last() == keys.take(at));
    exiting_is_final(LoopState::Running, keys, at + 1);
}

/// A batch without a quit key leaves the loop running.
pub proof fn running_without_quit(keys: Seq<KeySymbol>)
    requires
        forall|j: int| 0 <= j < keys.len() ==> keys[j] != KeySymbol::Quit,
    ensures
        LoopState::Running.on_keys(keys).0 == LoopState::Running,
    decreases keys.len(),
{
    if keys.len() > 0 {
        running_without_quit(keys.drop_last());
    }
}

} // verus!
