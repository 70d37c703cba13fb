//! The screen that shows the best results.

use crate::geometry::{Point, Rect};
use crate::mesh::{backdrop, backdrop_geometry};
use crate::panel::{lemma_panel_stays_what_it_was, Panel, PanelView};
use crate::screen_id::ScreenId;
use crate::session::SharedContext;
use crate::widget::{Action, Button, DrawCommand, Intent, Label, PointerButton};
use vstd::prelude::*;

verus! {

/// The leader board: its heading, and one region that leads back to the
/// main menu.
pub struct LeaderBoard {
    panel: Panel,
}

impl View for LeaderBoard {
    type V = PanelView;

    closed spec fn view(&self) -> PanelView {
        self.panel@
    }
}

impl LeaderBoard {
    /// A leader board never shows anything but the leader board, and
    /// nothing is ever pending on it that its region does not record.
    #[verifier::type_invariant]
    spec fn stays_leader_board(&self) -> bool {
        self.panel@.comes_of(Self::layout())
    }

    pub open spec fn back_button() -> Button {
        Button {
            bounds: Rect { x: 320, y: 380, w: 80, h: 40 },
            caption: "BACK",
            action: Action::Record(Intent::Open(ScreenId::MainMenu)),
        }
    }

    /// The screen as it is when entered.
    pub open spec fn layout() -> PanelView {
        PanelView {
            backdrop: backdrop_geometry(),
            buttons: seq![Self::back_button()],
            labels: seq![Label { text: "LEADERBOARD", size: 40, at: Point { x: 360, y: 100 } }],
            pending: None,
        }
    }

    pub fn new() -> (screen: LeaderBoard)
        ensures
            screen@ == LeaderBoard::layout(),
    {
        let mut labels: Vec<Label> = Vec::new();
        labels.push(Label { text: "LEADERBOARD", size: 40, at: Point { x: 360, y: 100 } });
        let mut buttons: Vec<Button> = Vec::new();
        buttons.push(
            Button {
                bounds: Rect { x: 320, y: 380, w: 80, h: 40 },
                caption: "BACK",
                action: Action::Record(Intent::Open(ScreenId::MainMenu)),
            },
        );
        assert(buttons@ =~= LeaderBoard::layout().buttons);
        assert(labels@ =~= LeaderBoard::layout().labels);
        LeaderBoard { panel: Panel::new(backdrop(), buttons, labels) }
    }

    /// What the screen holds. It is the screen as it was entered, but
    /// for what is pending.
    pub fn panel(&self) -> (panel: &Panel)
        ensures
            panel@ == self@,
            self@.comes_of(LeaderBoard::layout()),
    {
        proof {
            use_type_invariant(self);
        }
        &self.panel
    }

    /// Hands out the screen that the player asked for since the last
    /// update, once; `None` where nothing was asked. The screen is then
    /// as it was entered. The session is left alone, and the screen
    /// asked for is the main menu.
    pub fn update(&mut self, shared: &mut SharedContext) -> (next: Option<ScreenId>)
        ensures
            old(self)@.comes_of(LeaderBoard::layout()),
            final(self)@ == LeaderBoard::layout(),
            *final(shared) == *old(shared),
            next == old(self)@.requested(),
            next is None || next == Some(ScreenId::MainMenu),
        no_unwind
    {
        proof {
            use_type_invariant(&*self);
        }
        self.panel.update(shared)
    }

    pub fn render(&self) -> (plan: Vec<DrawCommand>)
        ensures
            plan@ == self@.plan(),
    {
        self.panel.render()
    }

    /// Records what the event asks for. Returns whether it asks the
    /// host to end the application, which no region here does.
    pub fn handle_pointer_event(&mut self, pressed: PointerButton, at: Point) -> (exit: bool)
        ensures
            old(self)@.comes_of(LeaderBoard::layout()),
            final(self)@ == old(self)@.after_pointer(pressed, at),
            final(self)@.comes_of(LeaderBoard::layout()),
            exit == old(self)@.exit_asked(pressed, at),
            !exit,
        no_unwind
    {
        proof {
            use_type_invariant(&*self);
            lemma_panel_stays_what_it_was(self.panel@, Self::layout(), pressed, at);
        }
        self.panel.handle_pointer_event(pressed, at)
    }
}

} // verus!
