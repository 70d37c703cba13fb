//! The screen on which the player chooses how hard the puzzle is to be.

use crate::geometry::{Point, Rect};
use crate::mesh::{backdrop, backdrop_geometry};
use crate::panel::{lemma_panel_stays_what_it_was, Panel, PanelView};
use crate::screen_id::ScreenId;
use crate::session::{Difficulty, SharedContext};
use crate::widget::{Action, Button, DrawCommand, Intent, Label, PointerButton};
use vstd::prelude::*;

verus! {

/// The choice of a difficulty: one region for each, and one that leads
/// back to the main menu. A chosen difficulty is written to the
/// session by the update that leaves for the puzzle.
pub struct SelectDifficulty {
    panel: Panel,
}

impl View for SelectDifficulty {
    type V = PanelView;

    closed spec fn view(&self) -> PanelView {
        self.panel@
    }
}

impl SelectDifficulty {
    /// The screen never shows anything but the choice of a difficulty,
    /// and nothing is ever pending on it that its regions do not record.
    #[verifier::type_invariant]
    spec fn stays_select_difficulty(&self) -> bool {
        self.panel@.comes_of(Self::layout())
    }

    pub open spec fn easy_button() -> Button {
        Button {
            bounds: Rect { x: 320, y: 180, w: 80, h: 40 },
            caption: "EASY",
            action: Action::Record(Intent::Choose(Difficulty::Easy)),
        }
    }

    pub open spec fn medium_button() -> Button {
        Button {
            bounds: Rect { x: 300, y: 240, w: 120, h: 40 },
            caption: "MEDIUM",
            action: Action::Record(Intent::Choose(Difficulty::Medium)),
        }
    }

    pub open spec fn hard_button() -> Button {
        Button {
            bounds: Rect { x: 320, y: 300, w: 80, h: 40 },
            caption: "HARD",
            action: Action::Record(Intent::Choose(Difficulty::Hard)),
        }
    }

    pub open spec fn back_button() -> Button {
        Button {
            bounds: Rect { x: 320, y: 380, w: 80, h: 40 },
            caption: "BACK",
            action: Action::Record(Intent::Open(ScreenId::MainMenu)),
        }
    }

    /// The screen as it is when entered.
    pub open spec fn layout() -> PanelView {
        PanelView {
            backdrop: backdrop_geometry(),
            buttons: seq![
                Self::easy_button(),
                Self::medium_button(),
                Self::hard_button(),
                Self::back_button(),
            ],
            labels: seq![Label { text: "SELECT DIFFICULTY", size: 40, at: Point { x: 360, y: 100 } }],
            pending: None,
        }
    }

    pub fn new() -> (screen: SelectDifficulty)
        ensures
            screen@ == SelectDifficulty::layout(),
    {
        let mut labels: Vec<Label> = Vec::new();
        labels.push(Label { text: "SELECT DIFFICULTY", size: 40, at: Point { x: 360, y: 100 } });
        let mut buttons: Vec<Button> = Vec::new();
        buttons.push(
            Button {
                bounds: Rect { x: 320, y: 180, w: 80, h: 40 },
                caption: "EASY",
                action: Action::Record(Intent::Choose(Difficulty::Easy)),
            },
        );
        buttons.push(
            Button {
                bounds: Rect { x: 300, y: 240, w: 120, h: 40 },
                caption: "MEDIUM",
                action: Action::Record(Intent::Choose(Difficulty::Medium)),
            },
        );
        buttons.push(
            Button {
                bounds: Rect { x: 320, y: 300, w: 80, h: 40 },
                caption: "HARD",
                action: Action::Record(Intent::Choose(Difficulty::Hard)),
            },
        );
        buttons.push(
            Button {
                bounds: Rect { x: 320, y: 380, w: 80, h: 40 },
                caption: "BACK",
                action: Action::Record(Intent::Open(ScreenId::MainMenu)),
            },
        );
        assert(buttons@ =~= SelectDifficulty::layout().buttons);
        assert(labels@ =~= SelectDifficulty::layout().labels);
        SelectDifficulty { panel: Panel::new(backdrop(), buttons, labels) }
    }

    /// What the screen holds. It is the screen as it was entered, but
    /// for what is pending.
    pub fn panel(&self) -> (panel: &Panel)
        ensures
            panel@ == self@,
            self@.comes_of(SelectDifficulty::layout()),
    {
        proof {
            use_type_invariant(self);
        }
        &self.panel
    }

    /// Carries out what the player asked for since the last update,
    /// once: writes a chosen difficulty to the session and hands out
    /// the screen to leave for; `None` where nothing was asked. The
    /// screen is then as it was entered. The session changes only
    /// where a difficulty was chosen, and then the puzzle is asked for;
    /// the one other screen asked for is the main menu.
    pub fn update(&mut self, shared: &mut SharedContext) -> (next: Option<ScreenId>)
        ensures
            old(self)@.comes_of(SelectDifficulty::layout()),
            final(self)@ == SelectDifficulty::layout(),
            *final(shared) == old(self)@.written(*old(shared)),
            next == old(self)@.requested(),
            match old(self)@.pending {
                Some(Intent::Choose(chosen)) => {
                    &&& final(shared).difficulty == Some(chosen)
                    &&& next == Some(ScreenId::Playing)
                },
                Some(Intent::Open(_)) => *final(shared) == *old(shared) && next == Some(ScreenId::MainMenu),
                None => *final(shared) == *old(shared) && next is None,
            },
        no_unwind
    {
        proof {
            use_type_invariant(&*self);
        }
        self.panel.update(shared)
    }

    pub fn render(&self) -> (plan: Vec<DrawCommand>)
        ensures
            plan@ == self@.plan(),
    {
        self.panel.render()
    }

    /// Records what the event asks for. Returns whether it asks the
    /// host to end the application, which no region here does.
    pub fn handle_pointer_event(&mut self, pressed: PointerButton, at: Point) -> (exit: bool)
        ensures
            old(self)@.comes_of(SelectDifficulty::layout()),
            final(self)@ == old(self)@.after_pointer(pressed, at),
            final(self)@.comes_of(SelectDifficulty::layout()),
            exit == old(self)@.exit_asked(pressed, at),
            !exit,
        no_unwind
    {
        proof {
            use_type_invariant(&*self);
            lemma_panel_stays_what_it_was(self.panel@, Self::layout(), pressed, at);
        }
        self.panel.handle_pointer_event(pressed, at)
    }
}

} // verus!
