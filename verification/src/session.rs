//! Session data that outlives every screen.

use vstd::prelude::*;

verus! {

/// How hard a puzzle the player asked for.
#[derive(Clone, Copy, Debug, PartialEq, Eq, Structural)]
pub enum Difficulty {
    Easy,
    Medium,
    Hard,
}

/// The difficulty of a session in which none was chosen.
pub const DEFAULT_DIFFICULTY: Difficulty = Difficulty::Easy;

impl Difficulty {
    /// The word that shows the difficulty to the player.
    pub open spec fn spec_caption(&self) -> &'static str {
        match *self {
            Difficulty::Easy => "EASY",
            Difficulty::Medium => "MEDIUM",
            Difficulty::Hard => "HARD",
        }
    }

    #[verifier::when_used_as_spec(spec_caption)]
    pub fn caption(&self) -> (word: &'static str)
        ensures
            word == self.spec_caption(),
    {
        match *self {
            Difficulty::Easy => "EASY",
            Difficulty::Medium => "MEDIUM",
            Difficulty::Hard => "HARD",
        }
    }
}

/// The data of one session. Each field is unset until a screen writes it,
/// and each has a default that stands in when a screen needs the field
/// before anything was chosen.
#[derive(Clone, Copy, Debug, PartialEq, Eq, Structural)]
pub struct SharedContext {
    pub difficulty: Option<Difficulty>,
}

impl SharedContext {
    /// The context with nothing chosen yet.
    pub open spec fn empty() -> SharedContext {
        SharedContext { difficulty: None }
    }

    /// The chosen difficulty, or the default where none was chosen.
    pub open spec fn spec_difficulty_or_default(&self) -> Difficulty {
        match self.difficulty {
            Some(chosen) => chosen,
            None => DEFAULT_DIFFICULTY,
        }
    }

    /// The same context with every unset field at its default; fields
    /// that were set keep their value.
    pub open spec fn forced(self) -> SharedContext {
        SharedContext { difficulty: Some(self.spec_difficulty_or_default()) }
    }

    /// Every field is set.
    pub open spec fn spec_is_complete(&self) -> bool {
        self.difficulty is Some
    }

    pub fn new() -> (context: SharedContext)
        ensures
            context == SharedContext::empty(),
    {
        SharedContext { difficulty: None }
    }

    /// A context for a session that starts without any choice made:
    /// every field at its default.
    pub fn new_forced() -> (context: SharedContext)
        ensures
            context == SharedContext::empty().forced(),
            context.difficulty == Some(DEFAULT_DIFFICULTY),
    {
        SharedContext { difficulty: Some(DEFAULT_DIFFICULTY) }
    }

    /// Sets every unset field to its default.
    pub fn force_defaults(&mut self)
        ensures
            *final(self) == old(self).forced(),
    {
        if self.difficulty.is_none() {
            self.difficulty = Some(DEFAULT_DIFFICULTY);
        }
    }

    #[verifier::when_used_as_spec(spec_difficulty_or_default)]
    pub fn difficulty_or_default(&self) -> (difficulty: Difficulty)
        ensures
            difficulty == self.spec_difficulty_or_default(),
    {
        match self.difficulty {
            Some(chosen) => chosen,
            None => DEFAULT_DIFFICULTY,
        }
    }

    #[verifier::when_used_as_spec(spec_is_complete)]
    pub fn is_complete(&self) -> (complete: bool)
        ensures
            complete == self.spec_is_complete(),
    {
        self.difficulty.is_some()
    }
}

/// Forcing defaults completes a context, changes nothing in a complete
/// one, and so changes nothing when done twice.
pub proof fn lemma_forced_is_complete(context: SharedContext)
    ensures
        context.forced().is_complete(),
        context.is_complete() ==> context.forced() == context,
        context.forced().forced() == context.forced(),
{
}

} // verus!
