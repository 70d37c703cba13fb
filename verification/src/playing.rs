//! The screen on which the puzzle is played.

use crate::geometry::{Point, Rect};
use crate::mesh::{backdrop, backdrop_geometry};
use crate::panel::{lemma_panel_stays_what_it_was, Panel, PanelView};
use crate::screen_id::ScreenId;
use crate::session::{Difficulty, SharedContext};
use crate::widget::{Action, Button, DrawCommand, Intent, Label, PointerButton};
use vstd::prelude::*;

verus! {

/// The puzzle screen. It is built for the difficulty of the session,
/// which it shows, and offers the way back to the main menu and the way
/// on to the leader board.
pub struct Playing {
    panel: Panel,
    difficulty: Difficulty,
}

impl View for Playing {
    type V = PanelView;

    closed spec fn view(&self) -> PanelView {
        self.panel@
    }
}

impl Playing {
    /// The screen never shows anything but the puzzle of the difficulty
    /// that it was built for, and nothing is ever pending on it that
    /// its regions do not record.
    #[verifier::type_invariant]
    spec fn stays_playing(&self) -> bool {
        self.panel@.comes_of(Self::layout(self.difficulty))
    }

    /// The difficulty that the screen was built for.
    pub closed spec fn spec_difficulty(&self) -> Difficulty {
        self.difficulty
    }

    pub open spec fn menu_button() -> Button {
        Button {
            bounds: Rect { x: 20, y: 420, w: 80, h: 40 },
            caption: "MENU",
            action: Action::Record(Intent::Open(ScreenId::MainMenu)),
        }
    }

    pub open spec fn done_button() -> Button {
        Button {
            bounds: Rect { x: 620, y: 420, w: 80, h: 40 },
            caption: "DONE",
            action: Action::Record(Intent::Open(ScreenId::LeaderBoard)),
        }
    }

    /// The screen as it is when entered for a difficulty.
    pub open spec fn layout(difficulty: Difficulty) -> PanelView {
        PanelView {
            backdrop: backdrop_geometry(),
            buttons: seq![Self::menu_button(), Self::done_button()],
            labels: seq![Label { text: difficulty.spec_caption(), size: 20, at: Point { x: 360, y: 30 } }],
            pending: None,
        }
    }

    /// Builds the screen for the difficulty of the session; where the
    /// session has none, for the default.
    pub fn new(shared: &SharedContext) -> (screen: Playing)
        ensures
            screen@ == Playing::layout(shared.spec_difficulty_or_default()),
            screen.spec_difficulty() == shared.spec_difficulty_or_default(),
    {
        let difficulty = shared.difficulty_or_default();
        let mut labels: Vec<Label> = Vec::new();
        labels.push(Label { text: difficulty.caption(), size: 20, at: Point { x: 360, y: 30 } });
        let mut buttons: Vec<Button> = Vec::new();
        buttons.push(
            Button {
                bounds: Rect { x: 20, y: 420, w: 80, h: 40 },
                caption: "MENU",
                action: Action::Record(Intent::Open(ScreenId::MainMenu)),
            },
        );
        buttons.push(
            Button {
                bounds: Rect { x: 620, y: 420, w: 80, h: 40 },
                caption: "DONE",
                action: Action::Record(Intent::Open(ScreenId::LeaderBoard)),
            },
        );
        assert(buttons@ =~= Playing::layout(difficulty).buttons);
        assert(labels@ =~= Playing::layout(difficulty).labels);
        Playing { panel: Panel::new(backdrop(), buttons, labels), difficulty }
    }

    #[verifier::when_used_as_spec(spec_difficulty)]
    pub fn difficulty(&self) -> (difficulty: Difficulty)
        ensures
            difficulty == self.spec_difficulty(),
    {
        self.difficulty
    }

    /// What the screen holds. It is the screen as it was entered for
    /// its difficulty, but for what is pending.
    pub fn panel(&self) -> (panel: &Panel)
        ensures
            panel@ == self@,
            self@.comes_of(Playing::layout(self.spec_difficulty())),
    {
        proof {
            use_type_invariant(self);
        }
        &self.panel
    }

    /// Hands out the screen that the player asked for since the last
    /// update, once; `None` where nothing was asked. The screen is then
    /// as it was entered. The session is left alone, and the screen
    /// asked for is the main menu or the leader board.
    pub fn update(&mut self, shared: &mut SharedContext) -> (next: Option<ScreenId>)
        ensures
            old(self)@.comes_of(Playing::layout(old(self).spec_difficulty())),
            final(self)@ == Playing::layout(old(self).spec_difficulty()),
            final(self).spec_difficulty() == old(self).spec_difficulty(),
            *final(shared) == *old(shared),
            next == old(self)@.requested(),
            next is None || next == Some(ScreenId::MainMenu) || next == Some(ScreenId::LeaderBoard),
        no_unwind
    {
        proof {
            use_type_invariant(&*self);
        }
        self.panel.update(shared)
    }

    pub fn render(&self) -> (plan: Vec<DrawCommand>)
        ensures
            plan@ == self@.plan(),
    {
        self.panel.render()
    }

    /// Records what the event asks for. Returns whether it asks the
    /// host to end the application, which no region here does.
    pub fn handle_pointer_event(&mut self, pressed: PointerButton, at: Point) -> (exit: bool)
        ensures
            old(self)@.comes_of(Playing::layout(old(self).spec_difficulty())),
            final(self)@ == old(self)@.after_pointer(pressed, at),
            final(self)@.comes_of(Playing::layout(old(self).spec_difficulty())),
            final(self).spec_difficulty() == old(self).spec_difficulty(),
            exit == old(self)@.exit_asked(pressed, at),
            !exit,
        no_unwind
    {
        proof {
            use_type_invariant(&*self);
            lemma_panel_stays_what_it_was(self.panel@, Self::layout(self.difficulty), pressed, at);
        }
        self.panel.handle_pointer_event(pressed, at)
    }
}

} // verus!
