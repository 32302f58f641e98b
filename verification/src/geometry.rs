//! Window and work-area geometry.
//!
//! The platform layer reads a window's rectangle and the desktop work area
//! (the display region without the taskbar) and hands both over as plain
//! rectangles. The library computes where the target window must be moved
//! so that its bottom-right corner meets the work area's bottom-right
//! corner, clamped so its left and top never go negative.

use vstd::prelude::*;

verus! {

/// An axis-aligned rectangle in screen coordinates.
pub struct Rect {
    /// Left edge.
    pub left: i32,
    /// Top edge.
    pub top: i32,
    /// Right edge.
    pub right: i32,
    /// Bottom edge.
    pub bottom: i32,
}

impl Rect {
    /// The rectangle is not inverted and its sides fit a machine word.
    pub open spec fn wf(&self) -> bool {
        &&& self.left <= self.right
        &&& self.top <= self.bottom
        &&& self.right - self.left <= i32::MAX
        &&& self.bottom - self.top <= i32::MAX
    }

    /// Horizontal extent.
    pub open spec fn spec_width(&self) -> int {
        self.right - self.left
    }

    /// Vertical extent.
    pub open spec fn spec_height(&self) -> int {
        self.bottom - self.top
    }
}

/// Width and height of a window's rectangle.
pub fn get_window_size(rect: &Rect) -> (size: (i32, i32))
    requires
        rect.wf(),
    ensures
        size.0 == rect.spec_width(),
        size.1 == rect.spec_height(),
{
    (rect.right - rect.left, rect.bottom - rect.top)
}

/// Top-left position, relative to the work area, that puts a window of the
/// given size against the work area's bottom-right corner, clamped to never
/// go negative.
pub open spec fn corner_position(
    area_width: int,
    area_height: int,
    window_width: int,
    window_height: int,
) -> (int, int) {
    (
        if window_width <= area_width {
            area_width - window_width
        } else {
            0
        },
        if window_height <= area_height {
            area_height - window_height
        } else {
            0
        },
    )
}

/// A move of the target window: new top-left position and kept size.
pub struct MoveCommand {
    /// New left edge.
    pub x: i32,
    /// New top edge.
    pub y: i32,
    /// Window width, unchanged by the move.
    pub width: i32,
    /// Window height, unchanged by the move.
    pub height: i32,
}

/// The move that parks the window in the bottom-right corner of the work
/// area: the window keeps its size and its top-left goes to
/// [`corner_position`] of the two extents.
pub fn move_window_to_right_bottom_corner(window: &Rect, work_area: &Rect) -> (m: MoveCommand)
    requires
        window.wf(),
        work_area.wf(),
    ensures
        m.width == window.spec_width(),
        m.height == window.spec_height(),
        (m.x as int, m.y as int) == corner_position(
            work_area.spec_width(),
            work_area.spec_height(),
            window.spec_width(),
            window.spec_height(),
        ),
{
    let (window_width, window_height) = get_window_size(window);
    let (area_width, area_height) = get_window_size(work_area);
    let x = if window_width <= area_width {
        area_width - window_width
    } else {
        0
    };
    let y = if window_height <= area_height {
        area_height - window_height
    } else {
        0
    };
    MoveCommand { x, y, width: window_width, height: window_height }
}

/// Law: a window no larger than the work area, moved to the corner
/// position, has its right and bottom edges exactly on the work area's
/// right and bottom edges; and for every window size the corner position
/// never goes negative.
pub proof fn lemma_reposition_correct(
    area_width: int,
    area_height: int,
    window_width: int,
    window_height: int,
)
    requires
        0 <= window_width,
        0 <= window_height,
        0 <= area_width,
        0 <= area_height,
    ensures
        corner_position(area_width, area_height, window_width, window_height).0 >= 0,
        corner_position(area_width, area_height, window_width, window_height).1 >= 0,
        window_width <= area_width ==> corner_position(
            area_width,
            area_height,
            window_width,
            window_height,
        ).0 + window_width == area_width,
        window_height <= area_height ==> corner_position(
            area_width,
            area_height,
            window_width,
            window_height,
        ).1 + window_height == area_height,
{
}

} // verus!
