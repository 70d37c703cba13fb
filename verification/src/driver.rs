//! The driver: the one owner of the active screen and of the session.

use crate::geometry::Point;
use crate::laws::{lemma_pointer_keeps_valid, lemma_step_keeps_valid};
use crate::screen::{Screen, ScreenState};
use crate::screen_id::ScreenId;
use crate::session::SharedContext;
use crate::widget::{DrawCommand, PointerButton};
use vstd::prelude::*;

verus! {

/// Owns the active screen and the session, and takes the application
/// from screen to screen. Of pointer events, updates and drawing, only
/// an update ever replaces the active screen.
pub struct AppDriver {
    active: Screen,
    shared: SharedContext,
}

/// A driver as contracts see it.
pub struct DriverState {
    pub active: ScreenState,
    pub shared: SharedContext,
}

/// What an update reports when it replaced the active screen.
pub struct Transition {
    /// The screen that was entered.
    pub to: ScreenId,
    /// The screen that was left. The driver holds it no longer: it is
    /// the caller's, and what it owns is released when the caller drops
    /// it.
    pub retired: Screen,
}

/// What can happen to a driver between two frames.
pub enum Event {
    /// A pointer event is delivered.
    Pointer { pressed: PointerButton, at: Point },
    /// An update is run.
    Tick,
}

impl View for AppDriver {
    type V = DriverState;

    closed spec fn view(&self) -> DriverState {
        DriverState { active: self.active@, shared: self.shared }
    }
}

impl DriverState {
    /// The driver that holds the given session and has just entered the
    /// named screen, which was built for that session. The session is
    /// as it was: entering a screen writes nothing to it.
    pub open spec fn entering(shared: SharedContext, id: ScreenId) -> DriverState {
        DriverState { active: ScreenState::fresh(id, shared), shared }
    }

    /// The session that the application starts with on the named
    /// screen: nothing is chosen yet, but where the first screen reads
    /// the session, every field is at its default.
    pub open spec fn first_session(initial: ScreenId) -> SharedContext {
        if initial.spec_needs_session() {
            SharedContext::empty().forced()
        } else {
            SharedContext::empty()
        }
    }

    /// The driver when the application starts on the named screen.
    pub open spec fn boot(initial: ScreenId) -> DriverState {
        Self::entering(Self::first_session(initial), initial)
    }

    /// The driver after leaving the active screen for the named one.
    /// The session is the same before and after.
    pub open spec fn enter(self, next: ScreenId) -> DriverState {
        Self::entering(self.shared, next)
    }

    /// The driver after a pointer event: the active screen has recorded
    /// what the event asks for, and it is still the active screen.
    pub open spec fn after_pointer(self, pressed: PointerButton, at: Point) -> DriverState {
        DriverState { active: self.active.after_pointer(pressed, at), ..self }
    }

    /// The driver after the update step of the active screen, before
    /// any change of screen.
    pub open spec fn updated(self) -> DriverState {
        DriverState { active: self.active.settled(), shared: self.active.panel.written(self.shared) }
    }

    /// The driver after one update. Where the active screen asks for a
    /// screen, that one is entered; where it asks for none, nothing
    /// changes.
    pub open spec fn after_tick(self) -> DriverState {
        match self.active.panel.requested() {
            Some(next) => self.updated().enter(next),
            None => self,
        }
    }

    /// The driver after one event.
    pub open spec fn after(self, event: Event) -> DriverState {
        match event {
            Event::Pointer { pressed, at } => self.after_pointer(pressed, at),
            Event::Tick => self.after_tick(),
        }
    }

    /// The driver after a run of events, the first of them first.
    pub open spec fn after_all(self, events: Seq<Event>) -> DriverState
        decreases events.len(),
    {
        if events.len() == 0 {
            self
        } else {
            self.after_all(events.drop_last()).after(events.last())
        }
    }

    /// The driver after a number of updates in a row.
    pub open spec fn after_ticks(self, count: nat) -> DriverState
        decreases count,
    {
        if count == 0 {
            self
        } else {
            self.after_ticks((count - 1) as nat).after_tick()
        }
    }

    /// What holds of a driver at every moment of its life. The active
    /// screen is, but for what is pending on it, the screen of its name
    /// as it is entered with the session; and what is pending is
    /// something that one of its regions records. Nothing is asked of
    /// the session: a field that is unset counts by its default.
    pub open spec fn is_valid(self) -> bool {
        self.active.comes_of(self.shared)
    }
}

impl AppDriver {
    /// No driver is ever anything but valid.
    #[verifier::type_invariant]
    spec fn always_valid(&self) -> bool {
        self@.is_valid()
    }

    /// Starts the application on the named screen. Any of the four can
    /// be the first: where it reads the session, it finds every field
    /// at its default, and the session keeps those values.
    pub fn new(initial: ScreenId) -> (driver: AppDriver)
        ensures
            driver@ == DriverState::boot(initial),
            driver@.is_valid(),
    {
        let mut shared = SharedContext::new();
        if initial.needs_session() {
            shared.force_defaults();
        }
        let active = Screen::build(initial, &shared);
        AppDriver { active, shared }
    }

    /// The active screen. The driver is valid, as it is at every
    /// moment.
    pub fn active(&self) -> (screen: &Screen)
        ensures
            screen@ == self@.active,
            self@.is_valid(),
    {
        proof {
            use_type_invariant(self);
        }
        &self.active
    }

    /// The name of the active screen.
    pub fn active_id(&self) -> (id: ScreenId)
        ensures
            id == self@.active.id,
    {
        self.active.id()
    }

    /// The session as it stands.
    pub fn shared(&self) -> (shared: &SharedContext)
        ensures
            *shared == self@.shared,
    {
        &self.shared
    }

    /// Leaves the active screen for the named one. The new screen is
    /// built first, for the session as it stands, and only then takes
    /// the place of the old one, which is returned. The session is only
    /// read: it is the same before and after.
    pub fn transition(&mut self, next: ScreenId) -> (retired: Screen)
        ensures
            final(self)@ == old(self)@.enter(next),
            final(self)@.shared == old(self)@.shared,
            final(self)@.active == ScreenState::fresh(next, old(self)@.shared),
            final(self)@.is_valid(),
            retired@ == old(self)@.active,
    {
        let mut screen = Screen::build(next, &self.shared);
        std::mem::swap(&mut self.active, &mut screen);
        screen
    }

    /// One update. The active screen takes its step, with the session
    /// in hand; where it asks for a screen, the driver leaves for it,
    /// and reports that. An update with nothing asked changes nothing.
    /// The screen left for is a customary successor of the one left,
    /// and the session changes only where a difficulty was chosen.
    pub fn tick_update(&mut self) -> (performed: Option<Transition>)
        ensures
            old(self)@.is_valid(),
            final(self)@ == old(self)@.after_tick(),
            final(self)@.is_valid(),
            final(self)@.shared == old(self)@.active.panel.written(old(self)@.shared),
            old(self)@.active.id != ScreenId::SelectDifficulty ==> final(self)@.shared == old(self)@.shared,
            match performed {
                Some(transition) => {
                    &&& old(self)@.active.panel.requested() == Some(transition.to)
                    &&& old(self)@.active.id.spec_leads_to(transition.to)
                    &&& transition.retired@ == old(self)@.active.settled()
                    &&& final(self)@.active == ScreenState::fresh(transition.to, final(self)@.shared)
                },
                None => old(self)@.active.panel.requested() is None && final(self)@ == old(self)@,
            },
    {
        proof {
            use_type_invariant(&*self);
            lemma_step_keeps_valid(self@);
        }
        match self.active.update(&mut self.shared) {
            Some(next) => {
                let retired = self.transition(next);
                Some(Transition { to: next, retired })
            },
            None => None,
        }
    }

    /// The commands that draw the active screen. Drawing changes
    /// neither the screen nor the session.
    pub fn tick_render(&self) -> (plan: Vec<DrawCommand>)
        ensures
            plan@ == self@.active.panel.plan(),
    {
        self.active.render()
    }

    /// Delivers a pointer event to the active screen. The position is
    /// one on the drawing surface. The event changes neither which
    /// screen is active nor the session. Returns whether it asks the
    /// host to end the application.
    pub fn handle_pointer_event(&mut self, pressed: PointerButton, at: Point) -> (exit: bool)
        ensures
            old(self)@.is_valid(),
            final(self)@ == old(self)@.after_pointer(pressed, at),
            final(self)@.is_valid(),
            final(self)@.active.id == old(self)@.active.id,
            final(self)@.shared == old(self)@.shared,
            exit == old(self)@.active.panel.exit_asked(pressed, at),
    {
        proof {
            use_type_invariant(&*self);
            lemma_pointer_keeps_valid(self@, pressed, at);
        }
        self.active.handle_pointer_event(pressed, at)
    }
}

} // verus!
