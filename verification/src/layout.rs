//! Where the buttons lie, and which of them a click lands on.

use crate::session::{ButtonId, Session, SessionController};
use vstd::prelude::*;

verus! {

/// A rectangle on the screen, by its top left corner and its size in pixels.
#[derive(Clone, Copy, Debug, PartialEq, Eq, Structural)]
pub struct Region {
    pub x: i32,
    pub y: i32,
    pub w: i32,
    pub h: i32,
}

/// The largest width, height and position of a rectangle: half of what `i32`
/// holds, so that the right and bottom edges stay within `i32`.
pub const MAX_EXTENT: i32 = 1_073_741_823;

/// The smallest position of a rectangle.
pub const MIN_POSITION: i32 = -1_073_741_824;

/// A position brought into the range that rectangles keep.
pub open spec fn clamp_position(value: int) -> int {
    if value > MAX_EXTENT {
        MAX_EXTENT as int
    } else if value < MIN_POSITION {
        MIN_POSITION as int
    } else {
        value
    }
}

/// A width or height brought into the range that rectangles keep: at least
/// one pixel, so that no rectangle is empty.
pub open spec fn clamp_size(value: int) -> int {
    if value <= 0 {
        1
    } else if value > MAX_EXTENT {
        MAX_EXTENT as int
    } else {
        value
    }
}

impl Region {
    /// The rectangle is not empty, and its edges lie within `i32`.
    pub open spec fn wf(self) -> bool {
        &&& MIN_POSITION <= self.x <= MAX_EXTENT
        &&& MIN_POSITION <= self.y <= MAX_EXTENT
        &&& 1 <= self.w <= MAX_EXTENT
        &&& 1 <= self.h <= MAX_EXTENT
    }

    /// A rectangle from a corner and a size, each brought into the range
    /// that rectangles keep.
    pub fn new(x: i32, y: i32, width: u32, height: u32) -> (region: Region)
        ensures
            region.x == clamp_position(x as int),
            region.y == clamp_position(y as int),
            region.w == clamp_size(width as int),
            region.h == clamp_size(height as int),
            region.wf(),
    {
        Region {
            x: Region::position(x),
            y: Region::position(y),
            w: Region::size(width),
            h: Region::size(height),
        }
    }

    fn position(value: i32) -> (clamped: i32)
        ensures
            clamped == clamp_position(value as int),
    {
        if value > MAX_EXTENT {
            MAX_EXTENT
        } else if value < MIN_POSITION {
            MIN_POSITION
        } else {
            value
        }
    }

    fn size(value: u32) -> (clamped: i32)
        ensures
            clamped == clamp_size(value as int),
    {
        if value == 0 {
            1
        } else if value > MAX_EXTENT as u32 {
            MAX_EXTENT
        } else {
            value as i32
        }
    }

    /// Whether the point lies strictly inside the rectangle: to the right of
    /// its left edge, left of its right edge, below its top, above its bottom.
    pub open spec fn covers(self, px: int, py: int) -> bool {
        self.x < px < self.x + self.w && self.y < py < self.y + self.h
    }

    /// Whether the point lies strictly inside the rectangle.
    pub fn contains(&self, px: i32, py: i32) -> (inside: bool)
        ensures
            inside == self.covers(px as int, py as int),
    {
        let right: i64 = self.x as i64 + self.w as i64;
        let bottom: i64 = self.y as i64 + self.h as i64;
        self.x < px && (px as i64) < right && self.y < py && (py as i64) < bottom
    }
}

/// The rectangles of the three buttons.
#[derive(Clone, Copy, Debug, PartialEq, Eq, Structural)]
pub struct ButtonLayout {
    pub start: Region,
    pub resume: Region,
    pub stop: Region,
}

impl ButtonLayout {
    /// The rectangle of `button`.
    pub open spec fn region(self, button: ButtonId) -> Region {
        match button {
            ButtonId::Start => self.start,
            ButtonId::Resume => self.resume,
            ButtonId::Stop => self.stop,
        }
    }

    /// Whether a click at the point lands on `button`: the session shows the
    /// button, and the point lies inside its rectangle.
    pub open spec fn lands_on(self, session: Session, button: ButtonId, px: int, py: int) -> bool {
        session.actionable(button) && self.region(button).covers(px, py)
    }

    /// The button that a click at the point lands on, if any. Where the
    /// rectangles of two shown buttons overlap, Start goes before Resume.
    pub open spec fn hit(self, session: Session, px: int, py: int) -> Option<ButtonId> {
        if self.lands_on(session, ButtonId::Start, px, py) {
            Some(ButtonId::Start)
        } else if self.lands_on(session, ButtonId::Resume, px, py) {
            Some(ButtonId::Resume)
        } else if self.lands_on(session, ButtonId::Stop, px, py) {
            Some(ButtonId::Stop)
        } else {
            None
        }
    }

    /// The button of the session in `controller` that a click at the point
    /// lands on, if any.
    pub fn button_at(&self, controller: &SessionController, px: i32, py: i32) -> (button: Option<
        ButtonId,
    >)
        ensures
            button == self.hit(controller@, px as int, py as int),
    {
        if controller.is_actionable(ButtonId::Start) && self.start.contains(px, py) {
            Some(ButtonId::Start)
        } else if controller.is_actionable(ButtonId::Resume) && self.resume.contains(px, py) {
            Some(ButtonId::Resume)
        } else if controller.is_actionable(ButtonId::Stop) && self.stop.contains(px, py) {
            Some(ButtonId::Stop)
        } else {
            None
        }
    }
}

/// A click never lands on a button that the session does not show, so the
/// click that it is turned into always changes the session.
pub proof fn lemma_hit_is_actionable(layout: ButtonLayout, session: Session, px: int, py: int)
    ensures
        layout.hit(session, px, py) matches Some(button) ==> session.actionable(button)
            && layout.region(button).covers(px, py),
        layout.hit(session, px, py).is_none() ==> forall|button: ButtonId|
            !layout.lands_on(session, button, px, py),
{
}

} // verus!
