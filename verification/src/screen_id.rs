//! The names of the screens.

use vstd::prelude::*;

verus! {

/// Names one of the four screens. A screen asks for its successor by
/// this name, and the driver builds screens from it.
#[derive(Clone, Copy, Debug, PartialEq, Eq, Structural)]
pub enum ScreenId {
    MainMenu,
    SelectDifficulty,
    Playing,
    LeaderBoard,
}

impl ScreenId {
    /// The screen reads session data when it is built.
    pub open spec fn spec_needs_session(&self) -> bool {
        *self == ScreenId::Playing
    }

    /// The customary successors of each screen.
    pub open spec fn spec_leads_to(&self, next: ScreenId) -> bool {
        match *self {
            ScreenId::MainMenu => next == ScreenId::SelectDifficulty || next == ScreenId::LeaderBoard,
            ScreenId::SelectDifficulty => next == ScreenId::Playing || next == ScreenId::MainMenu,
            ScreenId::Playing => next == ScreenId::MainMenu || next == ScreenId::LeaderBoard,
            ScreenId::LeaderBoard => next == ScreenId::MainMenu,
        }
    }

    #[verifier::when_used_as_spec(spec_needs_session)]
    pub fn needs_session(&self) -> (needed: bool)
        ensures
            needed == self.spec_needs_session(),
    {
        *self == ScreenId::Playing
    }

    #[verifier::when_used_as_spec(spec_leads_to)]
    pub fn leads_to(&self, next: ScreenId) -> (customary: bool)
        ensures
            customary == self.spec_leads_to(next),
    {
        match *self {
            ScreenId::MainMenu => next == ScreenId::SelectDifficulty || next == ScreenId::LeaderBoard,
            ScreenId::SelectDifficulty => next == ScreenId::Playing || next == ScreenId::MainMenu,
            ScreenId::Playing => next == ScreenId::MainMenu || next == ScreenId::LeaderBoard,
            ScreenId::LeaderBoard => next == ScreenId::MainMenu,
        }
    }
}

} // verus!
