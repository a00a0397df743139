//! The sound bank: which clips are registered under which name, and
//! whether playback may still be going on.

use crate::error::GameError;
use vstd::prelude::*;

verus! {

/// A sound that the game triggers.
#[derive(Clone, Copy, Debug, PartialEq, Eq, Structural)]
pub enum Cue {
    /// The player moved.
    Move,
    /// The player shot.
    Shoot,
    /// The game is over.
    Lose,
}

impl Cue {
    /// The name of the clip that is played for this cue.
    pub open spec fn clip_spec(self) -> &'static str {
        match self {
            Cue::Move => "move",
            Cue::Shoot => "pew",
            Cue::Lose => "lose",
        }
    }

    /// The name of the clip that is played for this cue.
    #[verifier::when_used_as_spec(clip_spec)]
    pub fn clip(self) -> (name: &'static str)
        ensures
            name == self.clip_spec(),
    {
        match self {
            Cue::Move => "move",
            Cue::Shoot => "pew",
            Cue::Lose => "lose",
        }
    }
}

/// The registry of clip names, with a note of whether a playback was
/// started that nobody has waited for yet.
///
/// The bank holds no audio. Loading, playing and waiting are the caller's
/// to do; the bank decides whether a name may be played and keeps the
/// books.
pub struct SoundBank {
    names: Vec<String>,
    playing: bool,
}

impl SoundBank {
    /// The names under which a clip is registered.
    pub closed spec fn registered(&self) -> Set<Seq<char>> {
        Set::new(|name: Seq<char>| exists|i: int| 0 <= i < self.names.len() && self.names[i]@ == name)
    }

    /// Whether a playback was started since the last `wait`.
    pub closed spec fn outstanding(&self) -> bool {
        self.playing
    }

    /// An empty bank.
    pub fn new() -> (bank: SoundBank)
        ensures
            bank.registered() == Set::<Seq<char>>::empty(),
            !bank.outstanding(),
    {
        let bank = SoundBank { names: Vec::new(), playing: false };
        assert(bank.registered() =~= Set::<Seq<char>>::empty());
        bank
    }

    /// Whether a clip is registered under `name`.
    pub fn is_registered(&self, name: &str) -> (found: bool)
        ensures
            found == self.registered().contains(name@),
    {
        let key = name.to_owned();
        let mut i: usize = 0;
        while i < self.names.len()
            invariant
                i <= self.names.len(),
                key@ == name@,
                forall|j: int| 0 <= j < i ==> self.names[j]@ != name@,
            decreases self.names.len() - i,
        {
            if self.names[i] == key {
                return true;
            }
            i += 1;
        }
        false
    }

    /// Binds `name` to a clip, given whether the clip could be loaded.
    ///
    /// A clip that was loaded is registered and the call succeeds. One
    /// that was not leaves the bank as it is and gives `GameError::Asset`.
    pub fn register(&mut self, name: &str, loaded: bool) -> (result: Result<(), GameError>)
        ensures
            loaded ==> result is Ok && final(self).registered() == old(self).registered().insert(
                name@,
            ),
            !loaded ==> result == Err::<(), GameError>(GameError::Asset) && final(self).registered()
                == old(self).registered(),
            final(self).outstanding() == old(self).outstanding(),
    {
        if !loaded {
            return Err(GameError::Asset);
        }
        if !self.is_registered(name) {
            let key = name.to_owned();
            self.names.push(key);
            assert(self.names[self.names.len() - 1]@ == name@);
            assert forall|j: int| 0 <= j < old(self).names.len() implies self.names[j]
                == old(self).names[j] by {}
        }
        assert(self.registered() =~= old(self).registered().insert(name@));
        Ok(())
    }

    /// Starts a playback of the clip registered under `name`.
    ///
    /// For a registered name the call succeeds and a playback is then
    /// outstanding. For any other name it gives `GameError::UnknownClip`
    /// and changes nothing.
    pub fn play(&mut self, name: &str) -> (result: Result<(), GameError>)
        ensures
            final(self).registered() == old(self).registered(),
            old(self).registered().contains(name@) ==> result is Ok && final(self).outstanding(),
            !old(self).registered().contains(name@) ==> result == Err::<(), GameError>(
                GameError::UnknownClip,
            ) && final(self).outstanding() == old(self).outstanding(),
    {
        if self.is_registered(name) {
            self.playing = true;
            Ok(())
        } else {
            Err(GameError::UnknownClip)
        }
    }

    /// Notes that every playback started so far has come to its end.
    pub fn wait(&mut self)
        ensures
            final(self).registered() == old(self).registered(),
            !final(self).outstanding(),
    {
        self.playing = false;
    }

    /// Whether a playback was started since the last `wait`.
    pub fn has_outstanding(&self) -> (busy: bool)
        ensures
            busy == self.outstanding(),
    {
        self.playing
    }
}

} // verus!
