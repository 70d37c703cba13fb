//! The common stuff of every screen: a backdrop, regions to click,
//! captions, and what the player last asked for.

use crate::geometry::{lemma_apart_share_no_point, Point};
use crate::mesh::{Mesh, MeshView};
use crate::screen_id::ScreenId;
use crate::session::SharedContext;
use crate::widget::{Action, Button, DrawCommand, Intent, Label, PointerButton};
use vstd::prelude::*;

verus! {

impl Intent {
    /// The screen that carrying out the intent leads to.
    pub open spec fn spec_target(&self) -> ScreenId {
        match *self {
            Intent::Open(next) => next,
            Intent::Choose(_) => ScreenId::Playing,
        }
    }

    /// The session after the intent was carried out: a choice is
    /// written down, and leaving for a screen changes nothing.
    pub open spec fn applied_to(self, shared: SharedContext) -> SharedContext {
        match self {
            Intent::Open(_) => shared,
            Intent::Choose(chosen) => SharedContext { difficulty: Some(chosen) },
        }
    }

    #[verifier::when_used_as_spec(spec_target)]
    pub fn target(&self) -> (next: ScreenId)
        ensures
            next == self.spec_target(),
        no_unwind
    {
        match *self {
            Intent::Open(next) => next,
            Intent::Choose(_) => ScreenId::Playing,
        }
    }

    /// Carries the intent out on the session.
    pub fn apply(&self, shared: &mut SharedContext)
        ensures
            *final(shared) == self.applied_to(*old(shared)),
        no_unwind
    {
        match *self {
            Intent::Open(_) => {},
            Intent::Choose(chosen) => {
                shared.difficulty = Some(chosen);
            },
        }
    }
}

/// What one pointer event makes a row of regions record. Every region
/// that the event activates acts, in the order of the row, so the last
/// activated region that records an intent decides; `None` where the
/// event activates no such region.
pub open spec fn recorded_by(buttons: Seq<Button>, pressed: PointerButton, at: Point) -> Option<Intent>
    decreases buttons.len(),
{
    if buttons.len() == 0 {
        None
    } else {
        let last = buttons.last();
        match last.action {
            Action::Record(intent) if last.spec_activated_by(pressed, at) => Some(intent),
            _ => recorded_by(buttons.drop_last(), pressed, at),
        }
    }
}

/// Whether one pointer event activates a region of the row that asks
/// the host to end the application.
pub open spec fn exit_asked_by(buttons: Seq<Button>, pressed: PointerButton, at: Point) -> bool {
    exists|i: int|
        0 <= i < buttons.len() && (#[trigger] buttons[i]).spec_activated_by(pressed, at)
            && buttons[i].action == Action::Exit
}

/// The region at a place in the row records an intent on the event.
pub open spec fn records_at(buttons: Seq<Button>, pressed: PointerButton, at: Point, i: int) -> bool {
    &&& 0 <= i < buttons.len()
    &&& buttons[i].spec_activated_by(pressed, at)
    &&& buttons[i].action is Record
}

/// No two regions of the row have a point in common.
pub open spec fn regions_apart(buttons: Seq<Button>) -> bool {
    forall|i: int, j: int|
        0 <= i < j < buttons.len() ==> !(#[trigger] buttons[i]).bounds.spec_overlaps(
            (#[trigger] buttons[j]).bounds,
        )
}

/// The drawing commands of a row of regions, one for each, in order.
pub open spec fn region_commands(buttons: Seq<Button>) -> Seq<DrawCommand> {
    Seq::new(
        buttons.len(),
        |i: int| DrawCommand::Region { bounds: buttons[i].bounds, caption: buttons[i].caption },
    )
}

/// The drawing commands of a row of captions, one for each, in order.
pub open spec fn text_commands(labels: Seq<Label>) -> Seq<DrawCommand> {
    Seq::new(
        labels.len(),
        |i: int| DrawCommand::Text { text: labels[i].text, size: labels[i].size, at: labels[i].at },
    )
}

pub struct Panel {
    backdrop: Mesh,
    buttons: Vec<Button>,
    labels: Vec<Label>,
    pending: Option<Intent>,
}

/// A panel as contracts see it.
pub struct PanelView {
    pub backdrop: MeshView,
    /// The regions, in the order in which they act and are drawn.
    pub buttons: Seq<Button>,
    /// The captions, in the order in which they are drawn.
    pub labels: Seq<Label>,
    /// The intent that the next update will carry out.
    pub pending: Option<Intent>,
}

impl View for Panel {
    type V = PanelView;

    closed spec fn view(&self) -> PanelView {
        PanelView {
            backdrop: self.backdrop@,
            buttons: self.buttons@,
            labels: self.labels@,
            pending: self.pending,
        }
    }
}

impl PanelView {
    /// The panel after a pointer event: an intent that the event makes
    /// the regions record replaces the pending one, and an event that
    /// records nothing leaves the panel as it was.
    pub open spec fn after_pointer(self, pressed: PointerButton, at: Point) -> PanelView {
        PanelView {
            pending: match recorded_by(self.buttons, pressed, at) {
                Some(intent) => Some(intent),
                None => self.pending,
            },
            ..self
        }
    }

    /// Whether a pointer event asks the host to end the application.
    pub open spec fn exit_asked(self, pressed: PointerButton, at: Point) -> bool {
        exit_asked_by(self.buttons, pressed, at)
    }

    /// The screen that the next update asks for.
    pub open spec fn requested(self) -> Option<ScreenId> {
        match self.pending {
            Some(intent) => Some(intent.spec_target()),
            None => None,
        }
    }

    /// The session after the next update.
    pub open spec fn written(self, shared: SharedContext) -> SharedContext {
        match self.pending {
            Some(intent) => intent.applied_to(shared),
            None => shared,
        }
    }

    /// One of the regions records the intent.
    pub open spec fn offers(self, intent: Intent) -> bool {
        exists|i: int| 0 <= i < self.buttons.len() && (#[trigger] self.buttons[i]).action == Action::Record(intent)
    }

    /// The panel is the given one, which has nothing pending, at some
    /// later moment of its life: it shows what that one shows, and what
    /// is pending on it is something that one of its regions records.
    pub open spec fn comes_of(self, entered: PanelView) -> bool {
        &&& self.settled() == entered
        &&& match self.pending {
            Some(intent) => entered.offers(intent),
            None => true,
        }
    }

    /// The panel after an update: nothing is pending any more.
    pub open spec fn settled(self) -> PanelView {
        PanelView { pending: None, ..self }
    }

    /// What drawing the panel takes: the backdrop, then the regions,
    /// then the captions.
    pub open spec fn plan(self) -> Seq<DrawCommand> {
        seq![DrawCommand::Backdrop] + region_commands(self.buttons) + text_commands(self.labels)
    }
}

impl Panel {
    /// A panel with nothing pending.
    pub fn new(backdrop: Mesh, buttons: Vec<Button>, labels: Vec<Label>) -> (panel: Panel)
        ensures
            panel@ == (PanelView {
                backdrop: backdrop@,
                buttons: buttons@,
                labels: labels@,
                pending: None,
            }),
    {
        Panel { backdrop, buttons, labels, pending: None }
    }

    pub fn backdrop(&self) -> (mesh: &Mesh)
        ensures
            mesh@ == self@.backdrop,
    {
        &self.backdrop
    }

    pub fn buttons(&self) -> (buttons: &Vec<Button>)
        ensures
            buttons@ == self@.buttons,
    {
        &self.buttons
    }

    pub fn labels(&self) -> (labels: &Vec<Label>)
        ensures
            labels@ == self@.labels,
    {
        &self.labels
    }

    pub fn pending(&self) -> (pending: Option<Intent>)
        ensures
            pending == self@.pending,
    {
        self.pending
    }

    /// Delivers a pointer event to every region, in order. Returns
    /// whether the host is asked to end the application.
    pub fn handle_pointer_event(&mut self, pressed: PointerButton, at: Point) -> (exit: bool)
        ensures
            final(self)@ == old(self)@.after_pointer(pressed, at),
            exit == old(self)@.exit_asked(pressed, at),
        no_unwind
    {
        let mut exit = false;
        let mut recorded: Option<Intent> = None;
        let mut i: usize = 0;
        while i < self.buttons.len()
            invariant
                i <= self.buttons.len(),
                *self == *old(self),
                recorded == recorded_by(self.buttons@.take(i as int), pressed, at),
                exit == exit_asked_by(self.buttons@.take(i as int), pressed, at),
            decreases self.buttons.len() - i,
        {
            let button = self.buttons[i];
            let ghost before = self.buttons@.take(i as int);
            let ghost now = self.buttons@.take(i + 1);
            assert(now.drop_last() =~= before);
            assert(now.last() == button);
            if button.activated_by(pressed, at) {
                match button.action {
                    Action::Record(intent) => {
                        recorded = Some(intent);
                    },
                    Action::Exit => {
                        exit = true;
                    },
                }
            }
            i += 1;
        }
        assert(self.buttons@.take(i as int) =~= self.buttons@);
        match recorded {
            Some(intent) => {
                self.pending = Some(intent);
            },
            None => {},
        }
        exit
    }

    /// Carries out what is pending, if anything is: writes a choice to
    /// the session and returns the screen to leave for. Nothing is
    /// pending afterwards.
    pub fn update(&mut self, shared: &mut SharedContext) -> (next: Option<ScreenId>)
        ensures
            final(self)@ == old(self)@.settled(),
            *final(shared) == old(self)@.written(*old(shared)),
            next == old(self)@.requested(),
        no_unwind
    {
        match self.pending {
            Some(intent) => {
                self.pending = None;
                intent.apply(shared);
                Some(intent.target())
            },
            None => None,
        }
    }

    /// The commands that draw the panel.
    pub fn render(&self) -> (plan: Vec<DrawCommand>)
        ensures
            plan@ == self@.plan(),
    {
        let mut plan: Vec<DrawCommand> = Vec::new();
        plan.push(DrawCommand::Backdrop);
        let mut i: usize = 0;
        while i < self.buttons.len()
            invariant
                i <= self.buttons.len(),
                plan@ == seq![DrawCommand::Backdrop] + region_commands(self.buttons@.take(i as int)),
            decreases self.buttons.len() - i,
        {
            let button = self.buttons[i];
            plan.push(DrawCommand::Region { bounds: button.bounds, caption: button.caption });
            assert(plan@ =~= seq![DrawCommand::Backdrop] + region_commands(self.buttons@.take(i + 1)));
            i += 1;
        }
        assert(self.buttons@.take(i as int) =~= self.buttons@);
        let mut k: usize = 0;
        while k < self.labels.len()
            invariant
                k <= self.labels.len(),
                plan@ == seq![DrawCommand::Backdrop] + region_commands(self.buttons@)
                    + text_commands(self.labels@.take(k as int)),
            decreases self.labels.len() - k,
        {
            let label = self.labels[k];
            plan.push(DrawCommand::Text { text: label.text, size: label.size, at: label.at });
            assert(plan@ =~= seq![DrawCommand::Backdrop] + region_commands(self.buttons@)
                + text_commands(self.labels@.take(k + 1)));
            k += 1;
        }
        assert(self.labels@.take(k as int) =~= self.labels@);
        plan
    }
}

/// Of the regions that record an intent on an event, the last in the
/// row decides what is recorded; where there is none, nothing is.
pub proof fn lemma_last_activated_decides(buttons: Seq<Button>, pressed: PointerButton, at: Point)
    ensures
        match recorded_by(buttons, pressed, at) {
            Some(intent) => exists|i: int|
                {
                    &&& #[trigger] records_at(buttons, pressed, at, i)
                    &&& buttons[i].action == Action::Record(intent)
                    &&& forall|j: int| i < j ==> !records_at(buttons, pressed, at, j)
                },
            None => forall|i: int| !records_at(buttons, pressed, at, i),
        },
    decreases buttons.len(),
{
    if buttons.len() > 0 {
        let rest = buttons.drop_last();
        let end = buttons.len() - 1;
        lemma_last_activated_decides(rest, pressed, at);
        assert forall|i: int| 0 <= i < end implies records_at(rest, pressed, at, i) == records_at(
            buttons,
            pressed,
            at,
            i,
        ) by {
            assert(rest[i] == buttons[i]);
        }
        if records_at(buttons, pressed, at, end) {
            assert(buttons[end].action == Action::Record(buttons[end].action->Record_0));
        } else {
            match recorded_by(rest, pressed, at) {
                Some(intent) => {
                    let i = choose|i: int|
                        {
                            &&& #[trigger] records_at(rest, pressed, at, i)
                            &&& rest[i].action == Action::Record(intent)
                            &&& forall|j: int| i < j ==> !records_at(rest, pressed, at, j)
                        };
                    assert(records_at(buttons, pressed, at, i));
                    assert(buttons[i].action == Action::Record(intent));
                    assert forall|j: int| i < j implies !records_at(buttons, pressed, at, j) by {
                        if j < end {
                            assert(!records_at(rest, pressed, at, j));
                        }
                    }
                },
                None => {
                    assert forall|i: int| !records_at(buttons, pressed, at, i) by {
                        if 0 <= i < end {
                            assert(!records_at(rest, pressed, at, i));
                        }
                    }
                },
            }
        }
    }
}

/// Whatever happens to a panel, it stays the panel that it was entered
/// as: a pointer event changes only what is pending, to something that
/// one of the regions records, and an update leaves nothing pending.
pub proof fn lemma_panel_stays_what_it_was(panel: PanelView, entered: PanelView, pressed: PointerButton, at: Point)
    requires
        panel.comes_of(entered),
    ensures
        panel.after_pointer(pressed, at).comes_of(entered),
        panel.settled().comes_of(entered),
        panel.settled() == entered,
        entered.comes_of(entered),
{
    let buttons = panel.buttons;
    assert(buttons == entered.buttons);
    lemma_last_activated_decides(buttons, pressed, at);
    if let Some(intent) = recorded_by(buttons, pressed, at) {
        let i = choose|i: int|
            #[trigger] records_at(buttons, pressed, at, i) && buttons[i].action == Action::Record(intent);
        assert(entered.buttons[i].action == Action::Record(intent));
    }
}

/// Where no two regions have a point in common, an event activates at
/// most one of them, so that activating every region that contains the
/// position comes to the same as activating the one that does.
pub proof fn lemma_apart_regions_act_alone(buttons: Seq<Button>, pressed: PointerButton, at: Point, hit: int)
    requires
        regions_apart(buttons),
        0 <= hit < buttons.len(),
        buttons[hit].spec_activated_by(pressed, at),
    ensures
        forall|i: int| 0 <= i < buttons.len() && i != hit ==> !(#[trigger] buttons[i]).spec_activated_by(pressed, at),
        recorded_by(buttons, pressed, at) == match buttons[hit].action {
            Action::Record(intent) => Some(intent),
            Action::Exit => None,
        },
        exit_asked_by(buttons, pressed, at) == (buttons[hit].action == Action::Exit),
{
    assert forall|i: int| 0 <= i < buttons.len() && i != hit implies !(#[trigger] buttons[i]).spec_activated_by(
        pressed,
        at,
    ) by {
        if i < hit {
            lemma_apart_share_no_point(buttons[i].bounds, buttons[hit].bounds, at);
        } else {
            lemma_apart_share_no_point(buttons[hit].bounds, buttons[i].bounds, at);
        }
    }
    lemma_last_activated_decides(buttons, pressed, at);
    match buttons[hit].action {
        Action::Record(intent) => {
            assert(records_at(buttons, pressed, at, hit));
        },
        Action::Exit => {},
    }
}

/// An event that activates no region records nothing and asks nothing
/// of the host.
pub proof fn lemma_miss_does_nothing(buttons: Seq<Button>, pressed: PointerButton, at: Point)
    requires
        forall|i: int| 0 <= i < buttons.len() ==> !(#[trigger] buttons[i]).spec_activated_by(pressed, at),
    ensures
        recorded_by(buttons, pressed, at) is None,
        !exit_asked_by(buttons, pressed, at),
{
    lemma_last_activated_decides(buttons, pressed, at);
    if let Some(intent) = recorded_by(buttons, pressed, at) {
        let i = choose|i: int| #[trigger] records_at(buttons, pressed, at, i);
        assert(buttons[i].spec_activated_by(pressed, at));
    }
}

} // verus!
