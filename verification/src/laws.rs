//! What holds of the driver over whole runs of events.

use crate::driver::{DriverState, Event};
use crate::geometry::Point;
use crate::panel::{
    lemma_apart_regions_act_alone, lemma_miss_does_nothing, lemma_panel_stays_what_it_was, regions_apart,
};
use crate::playing::Playing;
use crate::screen::ScreenState;
use crate::screen_id::ScreenId;
use crate::session::{Difficulty, SharedContext, DEFAULT_DIFFICULTY};
use crate::widget::{Action, Intent, PointerButton};
use vstd::prelude::*;

verus! {

/// Every screen can be entered, whatever the session holds, be it
/// complete or not. The driver that results is valid, the named screen
/// is active in it just as the construction rule builds it for the
/// session, nothing is pending on it, and the session is as it was.
pub proof fn lemma_every_screen_can_be_entered(shared: SharedContext, id: ScreenId)
    ensures
        DriverState::entering(shared, id).is_valid(),
        DriverState::entering(shared, id).active.id == id,
        DriverState::entering(shared, id).active == ScreenState::fresh(id, shared),
        DriverState::entering(shared, id).active.panel.pending is None,
        DriverState::entering(shared, id).shared == shared,
{
}

/// Leaving for a screen neither resets nor rewrites the session: only
/// the active screen changes.
pub proof fn lemma_transition_keeps_the_session(state: DriverState, next: ScreenId)
    ensures
        state.enter(next).shared == state.shared,
        state.enter(next).active == ScreenState::fresh(next, state.shared),
        state.enter(next).is_valid(),
{
    lemma_every_screen_can_be_entered(state.shared, next);
}

/// The application can start on any screen. Started on the puzzle,
/// with nothing chosen before, the session holds the default
/// difficulty; started on any other screen, it holds nothing yet.
pub proof fn lemma_boot_is_valid(initial: ScreenId)
    ensures
        DriverState::boot(initial).is_valid(),
        DriverState::boot(initial).active.id == initial,
        DriverState::boot(initial).active.panel.pending is None,
        DriverState::boot(ScreenId::Playing).shared.difficulty == Some(DEFAULT_DIFFICULTY),
        initial != ScreenId::Playing ==> DriverState::boot(initial).shared == SharedContext::empty(),
{
    lemma_every_screen_can_be_entered(DriverState::first_session(initial), initial);
}

/// A pointer event leaves a valid driver valid, on the same screen and
/// with the same session.
pub proof fn lemma_pointer_keeps_valid(state: DriverState, pressed: PointerButton, at: Point)
    requires
        state.is_valid(),
    ensures
        state.after_pointer(pressed, at).is_valid(),
        state.after_pointer(pressed, at).active.id == state.active.id,
        state.after_pointer(pressed, at).shared == state.shared,
{
    lemma_panel_stays_what_it_was(
        state.active.panel,
        ScreenState::fresh(state.active.id, state.shared).panel,
        pressed,
        at,
    );
}

/// The update step of the active screen leaves a valid driver valid:
/// where it writes to the session, the screen is not one that reads
/// it.
pub proof fn lemma_step_keeps_valid(state: DriverState)
    requires
        state.is_valid(),
    ensures
        state.updated().is_valid(),
        state.updated().active.id == state.active.id,
        state.active.id != ScreenId::SelectDifficulty ==> state.updated().shared == state.shared,
{
}

/// The active screen of a valid driver is wholly the screen of its
/// name.
pub proof fn lemma_valid_driver_holds_a_sound_screen(state: DriverState)
    requires
        state.is_valid(),
    ensures
        state.active.is_sound(),
{
}

/// An update leaves a valid driver valid.
pub proof fn lemma_tick_keeps_valid(state: DriverState)
    requires
        state.is_valid(),
    ensures
        state.after_tick().is_valid(),
{
    if let Some(next) = state.active.panel.requested() {
        lemma_every_screen_can_be_entered(state.updated().shared, next);
    }
}

/// At every moment of a run, from the start on any screen and through
/// any events, the driver is valid: one screen is active, and it is
/// wholly the screen of its name.
pub proof fn lemma_valid_at_every_moment(initial: ScreenId, events: Seq<Event>)
    ensures
        DriverState::boot(initial).after_all(events).is_valid(),
    decreases events.len(),
{
    if events.len() == 0 {
        lemma_boot_is_valid(initial);
    } else {
        lemma_valid_at_every_moment(initial, events.drop_last());
        let before = DriverState::boot(initial).after_all(events.drop_last());
        match events.last() {
            Event::Pointer { pressed, at } => {
                lemma_pointer_keeps_valid(before, pressed, at);
            },
            Event::Tick => {
                lemma_tick_keeps_valid(before);
            },
        }
    }
}

/// When the active screen asks for a screen, the update enters it: the
/// screen asked for is then the active one, it is just as the
/// construction rule builds it for the session, nothing is pending on
/// it, and what is drawn next is its drawing.
pub proof fn lemma_tick_enters_what_was_asked(state: DriverState, next: ScreenId)
    requires
        state.active.panel.requested() == Some(next),
    ensures
        state.after_tick().active.id == next,
        state.after_tick().active == ScreenState::fresh(next, state.after_tick().shared),
        state.after_tick().active.panel.plan() == ScreenState::fresh(next, state.after_tick().shared).panel.plan(),
        state.after_tick().active.panel.pending is None,
{
    lemma_every_screen_can_be_entered(state.updated().shared, next);
}

/// However many pointer events come before an update, and whatever
/// they activate, the screen stays and the session stays until the
/// update; and the update leaves for one screen at most: either nothing
/// was asked and it changes nothing, or it enters the one screen that
/// the active screen asks for. Nothing is pending after it, so the
/// update that follows changes nothing.
pub proof fn lemma_one_transition_per_tick(state: DriverState, batch: Seq<Event>)
    requires
        forall|i: int| 0 <= i < batch.len() ==> (#[trigger] batch[i]) is Pointer,
    ensures
        state.after_all(batch).active.id == state.active.id,
        state.after_all(batch).shared == state.shared,
        match state.after_all(batch).active.panel.requested() {
            Some(next) => {
                &&& state.after_all(batch).after_tick() == state.after_all(batch).updated().enter(next)
                &&& state.after_all(batch).after_tick().active.id == next
            },
            None => state.after_all(batch).after_tick() == state.after_all(batch),
        },
        state.after_all(batch).after_tick().active.panel.pending is None,
        state.after_all(batch).after_tick().after_tick() == state.after_all(batch).after_tick(),
    decreases batch.len(),
{
    if batch.len() > 0 {
        assert(batch.last() is Pointer);
        lemma_one_transition_per_tick(state, batch.drop_last());
    }
}

/// An update with nothing pending changes nothing, however often it is
/// run.
pub proof fn lemma_idle_ticks_change_nothing(state: DriverState, count: nat)
    requires
        state.active.panel.pending is None,
    ensures
        state.after_ticks(count) == state,
    decreases count,
{
    if count > 0 {
        lemma_idle_ticks_change_nothing(state, (count - 1) as nat);
    }
}

/// With no input in between, only the first of a row of updates can
/// change the screen: the driver after any number of them is the driver
/// after one.
pub proof fn lemma_ticks_after_the_first_change_nothing(state: DriverState, count: nat)
    requires
        count >= 1,
    ensures
        state.after_ticks(count) == state.after_tick(),
        state.after_ticks(count).active.id == state.after_tick().active.id,
    decreases count,
{
    reveal_with_fuel(DriverState::after_ticks, 2);
    if count > 1 {
        lemma_ticks_after_the_first_change_nothing(state, (count - 1) as nat);
    }
}

/// A valid driver leaves a screen only for one of its customary
/// successors.
pub proof fn lemma_successors_are_customary(state: DriverState)
    requires
        state.is_valid(),
    ensures
        match state.active.panel.requested() {
            Some(next) => state.active.id.spec_leads_to(next),
            None => true,
        },
        state.after_tick().active.id == state.active.id || state.active.id.spec_leads_to(
            state.after_tick().active.id,
        ),
{
}

/// An update of a valid driver changes the session only where a
/// difficulty is pending, which it then holds; and a difficulty is
/// only ever pending on the screen where one is chosen.
pub proof fn lemma_session_changes_only_by_choice(state: DriverState)
    requires
        state.is_valid(),
    ensures
        match state.active.panel.pending {
            Some(Intent::Choose(chosen)) => {
                &&& state.active.id == ScreenId::SelectDifficulty
                &&& state.after_tick().shared == SharedContext { difficulty: Some(chosen) }
            },
            _ => state.after_tick().shared == state.shared,
        },
{
}

/// A difficulty that is pending reaches the puzzle: the update writes
/// it to the session and enters the puzzle screen, built for it.
pub proof fn lemma_choice_reaches_the_puzzle(state: DriverState, chosen: Difficulty)
    requires
        state.active.panel.pending == Some(Intent::Choose(chosen)),
    ensures
        state.after_tick().shared.difficulty == Some(chosen),
        state.after_tick().active.id == ScreenId::Playing,
        state.after_tick().active.panel == Playing::layout(chosen),
{
}

/// On every screen as it is entered, no two regions have a point in
/// common, so a pointer event activates one region at most.
pub proof fn lemma_regions_of_every_screen_are_apart(id: ScreenId, shared: SharedContext)
    ensures
        regions_apart(ScreenState::fresh(id, shared).panel.buttons),
{
}

/// A press of the primary button within a region of a screen as it was
/// entered acts on that region and on no other. A region that records
/// an intent makes it pending, and the next update carries it out and
/// enters the screen that it leads to; a region that asks the host to
/// end the application leaves the screen as it was.
pub proof fn lemma_press_acts_on_the_region_hit(shared: SharedContext, id: ScreenId, hit: int, at: Point)
    requires
        0 <= hit < DriverState::entering(shared, id).active.panel.buttons.len(),
        DriverState::entering(shared, id).active.panel.buttons[hit].bounds.spec_contains(at),
    ensures
        match DriverState::entering(shared, id).active.panel.buttons[hit].action {
            Action::Record(intent) => {
                &&& DriverState::entering(shared, id).after_pointer(PointerButton::Primary, at).active.panel.pending
                    == Some(intent)
                &&& !DriverState::entering(shared, id).active.panel.exit_asked(PointerButton::Primary, at)
                &&& DriverState::entering(shared, id).after_pointer(PointerButton::Primary, at).after_tick().active.id
                    == intent.spec_target()
            },
            Action::Exit => {
                &&& DriverState::entering(shared, id).after_pointer(PointerButton::Primary, at)
                    == DriverState::entering(shared, id)
                &&& DriverState::entering(shared, id).active.panel.exit_asked(PointerButton::Primary, at)
            },
        },
{
    let entered = DriverState::entering(shared, id);
    lemma_regions_of_every_screen_are_apart(id, entered.shared);
    lemma_apart_regions_act_alone(entered.active.panel.buttons, PointerButton::Primary, at, hit);
}

/// A pointer event that activates no region of the active screen, be
/// it a press of another button or a press outside every region,
/// changes nothing and asks nothing of the host; with nothing pending
/// before it, the next update changes nothing either.
pub proof fn lemma_miss_changes_nothing(state: DriverState, pressed: PointerButton, at: Point)
    requires
        forall|i: int|
            0 <= i < state.active.panel.buttons.len() ==> !(#[trigger] state.active.panel.buttons[i]).spec_activated_by(
                pressed,
                at,
            ),
    ensures
        state.after_pointer(pressed, at) == state,
        !state.active.panel.exit_asked(pressed, at),
        state.active.panel.pending is None ==> state.after_pointer(pressed, at).after_tick() == state,
{
    lemma_miss_does_nothing(state.active.panel.buttons, pressed, at);
}

} // verus!
