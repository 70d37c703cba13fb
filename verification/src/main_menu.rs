//! The screen that the application opens with.

use crate::geometry::{Point, Rect};
use crate::mesh::{backdrop, backdrop_geometry};
use crate::panel::{lemma_panel_stays_what_it_was, Panel, PanelView};
use crate::screen_id::ScreenId;
use crate::session::SharedContext;
use crate::widget::{Action, Button, DrawCommand, Intent, Label, PointerButton};
use vstd::prelude::*;

verus! {

/// The main menu: the title, a credit, and three regions that lead to
/// the choice of a difficulty, to the leader board, and out of the
/// application.
pub struct MainMenu {
    panel: Panel,
}

impl View for MainMenu {
    type V = PanelView;

    closed spec fn view(&self) -> PanelView {
        self.panel@
    }
}

impl MainMenu {
    /// A main menu never shows anything but the main menu, and nothing
    /// is ever pending on it that its regions do not record.
    #[verifier::type_invariant]
    spec fn stays_main_menu(&self) -> bool {
        self.panel@.comes_of(Self::layout())
    }

    pub open spec fn exit_button() -> Button {
        Button { bounds: Rect { x: 320, y: 320, w: 80, h: 40 }, caption: "EXIT", action: Action::Exit }
    }

    pub open spec fn leader_board_button() -> Button {
        Button {
            bounds: Rect { x: 280, y: 260, w: 160, h: 40 },
            caption: "LEADERBOARD",
            action: Action::Record(Intent::Open(ScreenId::LeaderBoard)),
        }
    }

    pub open spec fn play_button() -> Button {
        Button {
            bounds: Rect { x: 320, y: 200, w: 80, h: 40 },
            caption: "PLAY",
            action: Action::Record(Intent::Open(ScreenId::SelectDifficulty)),
        }
    }

    /// The main menu as it is when entered.
    pub open spec fn layout() -> PanelView {
        PanelView {
            backdrop: backdrop_geometry(),
            buttons: seq![Self::exit_button(), Self::leader_board_button(), Self::play_button()],
            labels: seq![
                Label { text: "SUDOKU", size: 80, at: Point { x: 360, y: 100 } },
                Label { text: "Made by alimulap", size: 15, at: Point { x: 640, y: 450 } },
            ],
            pending: None,
        }
    }

    pub fn new() -> (menu: MainMenu)
        ensures
            menu@ == MainMenu::layout(),
    {
        let mut labels: Vec<Label> = Vec::new();
        labels.push(Label { text: "SUDOKU", size: 80, at: Point { x: 360, y: 100 } });
        labels.push(Label { text: "Made by alimulap", size: 15, at: Point { x: 640, y: 450 } });
        let mut buttons: Vec<Button> = Vec::new();
        buttons.push(
            Button { bounds: Rect { x: 320, y: 320, w: 80, h: 40 }, caption: "EXIT", action: Action::Exit },
        );
        buttons.push(
            Button {
                bounds: Rect { x: 280, y: 260, w: 160, h: 40 },
                caption: "LEADERBOARD",
                action: Action::Record(Intent::Open(ScreenId::LeaderBoard)),
            },
        );
        buttons.push(
            Button {
                bounds: Rect { x: 320, y: 200, w: 80, h: 40 },
                caption: "PLAY",
                action: Action::Record(Intent::Open(ScreenId::SelectDifficulty)),
            },
        );
        assert(buttons@ =~= MainMenu::layout().buttons);
        assert(labels@ =~= MainMenu::layout().labels);
        MainMenu { panel: Panel::new(backdrop(), buttons, labels) }
    }

    /// What the menu holds. It is the menu as it was entered, but for
    /// what is pending.
    pub fn panel(&self) -> (panel: &Panel)
        ensures
            panel@ == self@,
            self@.comes_of(MainMenu::layout()),
    {
        proof {
            use_type_invariant(self);
        }
        &self.panel
    }

    /// Hands out the screen that the player asked for since the last
    /// update, once; `None` where nothing was asked. The menu is then
    /// as it was entered. The session is left alone, and the screen
    /// asked for is the choice of a difficulty or the leader board.
    pub fn update(&mut self, shared: &mut SharedContext) -> (next: Option<ScreenId>)
        ensures
            old(self)@.comes_of(MainMenu::layout()),
            final(self)@ == MainMenu::layout(),
            *final(shared) == *old(shared),
            next == old(self)@.requested(),
            next is None || next == Some(ScreenId::SelectDifficulty) || next == Some(ScreenId::LeaderBoard),
        no_unwind
    {
        proof {
            use_type_invariant(&*self);
        }
        self.panel.update(shared)
    }

    pub fn render(&self) -> (plan: Vec<DrawCommand>)
        ensures
            plan@ == self@.plan(),
    {
        self.panel.render()
    }

    /// Records what the event asks for. Returns whether it asks the
    /// host to end the application.
    pub fn handle_pointer_event(&mut self, pressed: PointerButton, at: Point) -> (exit: bool)
        ensures
            old(self)@.comes_of(MainMenu::layout()),
            final(self)@ == old(self)@.after_pointer(pressed, at),
            final(self)@.comes_of(MainMenu::layout()),
            exit == old(self)@.exit_asked(pressed, at),
        no_unwind
    {
        proof {
            use_type_invariant(&*self);
            lemma_panel_stays_what_it_was(self.panel@, Self::layout(), pressed, at);
        }
        self.panel.handle_pointer_event(pressed, at)
    }
}

} // verus!
