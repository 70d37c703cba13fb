//! The active screen: one of the four, and the rule that builds each.

use crate::geometry::Point;
use crate::leader_board::LeaderBoard;
use crate::main_menu::MainMenu;
use crate::panel::{Panel, PanelView};
use crate::playing::Playing;
use crate::screen_id::ScreenId;
use crate::select_difficulty::SelectDifficulty;
use crate::session::{Difficulty, SharedContext};
use crate::widget::{DrawCommand, PointerButton};
use vstd::prelude::*;

verus! {

/// A screen of the application. It owns what it shows and what the
/// player asked of it; whatever is to outlive it belongs in the session.
pub enum Screen {
    MainMenu(MainMenu),
    SelectDifficulty(SelectDifficulty),
    Playing(Playing),
    LeaderBoard(LeaderBoard),
}

/// A screen as contracts see it: which one it is, and what it holds.
pub struct ScreenState {
    pub id: ScreenId,
    pub panel: PanelView,
}

impl View for Screen {
    type V = ScreenState;

    open spec fn view(&self) -> ScreenState {
        match self {
            Screen::MainMenu(screen) => ScreenState { id: ScreenId::MainMenu, panel: screen@ },
            Screen::SelectDifficulty(screen) => ScreenState { id: ScreenId::SelectDifficulty, panel: screen@ },
            Screen::Playing(screen) => ScreenState { id: ScreenId::Playing, panel: screen@ },
            Screen::LeaderBoard(screen) => ScreenState { id: ScreenId::LeaderBoard, panel: screen@ },
        }
    }
}

impl ScreenState {
    /// The named screen as it is when entered with the given session.
    /// Every screen can be entered with every session: a screen that
    /// reads a field which is unset goes by the field's default.
    pub open spec fn fresh(id: ScreenId, shared: SharedContext) -> ScreenState {
        ScreenState {
            id,
            panel: match id {
                ScreenId::MainMenu => MainMenu::layout(),
                ScreenId::SelectDifficulty => SelectDifficulty::layout(),
                ScreenId::Playing => Playing::layout(shared.spec_difficulty_or_default()),
                ScreenId::LeaderBoard => LeaderBoard::layout(),
            },
        }
    }

    /// The screen is the one of its name, entered with the given
    /// session, at some later moment of its life: it shows what that
    /// one shows, and what is pending on it is something that one of
    /// its regions records.
    pub open spec fn comes_of(self, shared: SharedContext) -> bool {
        self.panel.comes_of(Self::fresh(self.id, shared).panel)
    }

    /// The screen is wholly the screen of its name: entered as such,
    /// the puzzle for one of the difficulties, and changed since only
    /// in what is pending, which is something that one of its regions
    /// records.
    pub open spec fn is_sound(self) -> bool {
        match self.id {
            ScreenId::MainMenu => self.panel.comes_of(MainMenu::layout()),
            ScreenId::SelectDifficulty => self.panel.comes_of(SelectDifficulty::layout()),
            ScreenId::Playing => {
                ||| self.panel.comes_of(Playing::layout(Difficulty::Easy))
                ||| self.panel.comes_of(Playing::layout(Difficulty::Medium))
                ||| self.panel.comes_of(Playing::layout(Difficulty::Hard))
            },
            ScreenId::LeaderBoard => self.panel.comes_of(LeaderBoard::layout()),
        }
    }

    /// The screen after a pointer event.
    pub open spec fn after_pointer(self, pressed: PointerButton, at: Point) -> ScreenState {
        ScreenState { panel: self.panel.after_pointer(pressed, at), ..self }
    }

    /// The screen after an update.
    pub open spec fn settled(self) -> ScreenState {
        ScreenState { panel: self.panel.settled(), ..self }
    }
}

impl Screen {
    /// Builds the named screen for the given session. This is the one
    /// rule by which screens come to be, and it has no way to fail.
    pub fn build(id: ScreenId, shared: &SharedContext) -> (screen: Screen)
        ensures
            screen@ == ScreenState::fresh(id, *shared),
            screen@.is_sound(),
    {
        match id {
            ScreenId::MainMenu => Screen::MainMenu(MainMenu::new()),
            ScreenId::SelectDifficulty => Screen::SelectDifficulty(SelectDifficulty::new()),
            ScreenId::Playing => Screen::Playing(Playing::new(shared)),
            ScreenId::LeaderBoard => Screen::LeaderBoard(LeaderBoard::new()),
        }
    }

    /// Which screen this is.
    pub fn id(&self) -> (id: ScreenId)
        ensures
            id == self@.id,
    {
        match self {
            Screen::MainMenu(_) => ScreenId::MainMenu,
            Screen::SelectDifficulty(_) => ScreenId::SelectDifficulty,
            Screen::Playing(_) => ScreenId::Playing,
            Screen::LeaderBoard(_) => ScreenId::LeaderBoard,
        }
    }

    /// What the screen holds: its backdrop, regions and captions, and
    /// what is pending. Whatever has happened to the screen, this is
    /// the screen of its name.
    pub fn panel(&self) -> (panel: &Panel)
        ensures
            panel@ == self@.panel,
            self@.is_sound(),
    {
        match self {
            Screen::MainMenu(screen) => screen.panel(),
            Screen::SelectDifficulty(screen) => screen.panel(),
            Screen::Playing(screen) => screen.panel(),
            Screen::LeaderBoard(screen) => screen.panel(),
        }
    }

    /// One step of the screen. Carries out what the player asked for
    /// since the last update, once: writes to the session what is to
    /// outlive the screen, and returns the screen to leave for. Returns
    /// `None`, and changes nothing, where nothing was asked. Only the
    /// choice of a difficulty ever writes to the session, and a screen
    /// asks for none but its customary successors.
    pub fn update(&mut self, shared: &mut SharedContext) -> (next: Option<ScreenId>)
        ensures
            final(self)@ == old(self)@.settled(),
            *final(shared) == old(self)@.panel.written(*old(shared)),
            next == old(self)@.panel.requested(),
            old(self)@.id != ScreenId::SelectDifficulty ==> *final(shared) == *old(shared),
            old(self)@.panel.pending is None ==> *final(shared) == *old(shared),
            match next {
                Some(next) => old(self)@.id.spec_leads_to(next),
                None => true,
            },
            old(self)@.is_sound(),
            final(self)@.is_sound(),
        no_unwind
    {
        match self {
            Screen::MainMenu(screen) => screen.update(shared),
            Screen::SelectDifficulty(screen) => screen.update(shared),
            Screen::Playing(screen) => screen.update(shared),
            Screen::LeaderBoard(screen) => screen.update(shared),
        }
    }

    /// The commands that draw the screen. Drawing changes nothing.
    pub fn render(&self) -> (plan: Vec<DrawCommand>)
        ensures
            plan@ == self@.panel.plan(),
    {
        match self {
            Screen::MainMenu(screen) => screen.render(),
            Screen::SelectDifficulty(screen) => screen.render(),
            Screen::Playing(screen) => screen.render(),
            Screen::LeaderBoard(screen) => screen.render(),
        }
    }

    /// Delivers a pointer event, whose position is one on the drawing
    /// surface. The screen records what the event asks for; leaving for
    /// another screen is left to the next update. Returns whether the
    /// event asks the host to end the application.
    pub fn handle_pointer_event(&mut self, pressed: PointerButton, at: Point) -> (exit: bool)
        ensures
            final(self)@ == old(self)@.after_pointer(pressed, at),
            exit == old(self)@.panel.exit_asked(pressed, at),
            exit ==> old(self)@.id == ScreenId::MainMenu,
            old(self)@.is_sound(),
            final(self)@.is_sound(),
        no_unwind
    {
        match self {
            Screen::MainMenu(screen) => screen.handle_pointer_event(pressed, at),
            Screen::SelectDifficulty(screen) => screen.handle_pointer_event(pressed, at),
            Screen::Playing(screen) => screen.handle_pointer_event(pressed, at),
            Screen::LeaderBoard(screen) => screen.handle_pointer_event(pressed, at),
        }
    }
}

} // verus!
