//! What a screen is made of: captions, clickable regions, and the
//! commands that draw them.

use crate::geometry::{Point, Rect};
use crate::screen_id::ScreenId;
use crate::session::Difficulty;
use vstd::prelude::*;

verus! {

/// The size at which the caption of a region is set.
pub const REGION_TEXT_SIZE: u32 = 20;

/// A button of the pointing device.
#[derive(Clone, Copy, Debug, PartialEq, Eq, Structural)]
pub enum PointerButton {
    Primary,
    Secondary,
    Middle,
    Other,
}

/// What a screen remembers of the player's input until its next update.
#[derive(Clone, Copy, Debug, PartialEq, Eq, Structural)]
pub enum Intent {
    /// Leave for the named screen.
    Open(ScreenId),
    /// Choose a difficulty for the session and start playing.
    Choose(Difficulty),
}

/// What activating a region does.
#[derive(Clone, Copy, Debug, PartialEq, Eq, Structural)]
pub enum Action {
    /// The screen records the intent; its next update carries it out.
    Record(Intent),
    /// The host is asked, at once, to end the application.
    Exit,
}

/// A line of text, centred on a position.
#[derive(Clone, Copy, Debug, PartialEq, Eq)]
pub struct Label {
    pub text: &'static str,
    pub size: u32,
    pub at: Point,
}

/// A clickable region with its caption.
#[derive(Clone, Copy, Debug, PartialEq, Eq)]
pub struct Button {
    pub bounds: Rect,
    pub caption: &'static str,
    pub action: Action,
}

impl Button {
    /// A pointer event activates a region when the primary button was
    /// pressed and the position lies within the region's bounds.
    pub open spec fn spec_activated_by(&self, pressed: PointerButton, at: Point) -> bool {
        pressed == PointerButton::Primary && self.bounds.contains(at)
    }

    #[verifier::when_used_as_spec(spec_activated_by)]
    pub fn activated_by(&self, pressed: PointerButton, at: Point) -> (activated: bool)
        ensures
            activated == self.spec_activated_by(pressed, at),
        no_unwind
    {
        match pressed {
            PointerButton::Primary => self.bounds.contains(at),
            _ => false,
        }
    }
}

/// One step of drawing a screen.
#[derive(Clone, Copy, Debug, PartialEq, Eq)]
pub enum DrawCommand {
    /// The screen's backdrop, over the whole surface.
    Backdrop,
    /// A region: its outline, and its caption centred within.
    Region { bounds: Rect, caption: &'static str },
    /// A line of text, centred on a position.
    Text { text: &'static str, size: u32, at: Point },
}

} // verus!
