//! Placement of the "please wait" box shown while a command runs.
use vstd::prelude::*;

verus! {

/// A rectangle of terminal cells.
#[derive(Debug, Clone, Copy, PartialEq, Eq, Structural)]
pub struct Rect {
    pub x: u16,
    pub y: u16,
    pub width: u16,
    pub height: u16,
}

/// The rectangle at (`x`, `y`) of the given size, with the width and height
/// cut so that its right and bottom edges stay within `u16`.
pub open spec fn rect_new(x: u16, y: u16, width: u16, height: u16) -> Rect {
    Rect {
        x,
        y,
        width: (sat_add(x as int, width as int) - x) as u16,
        height: (sat_add(y as int, height as int) - y) as u16,
    }
}

/// The right and bottom edges of `r` stay within `u16`.
pub open spec fn within_bounds(r: Rect) -> bool {
    r.x + r.width <= u16::MAX && r.y + r.height <= u16::MAX
}

impl Rect {
    /// A rectangle at (`x`, `y`) of the given size, cut to keep its edges
    /// within `u16`.
    pub fn new(x: u16, y: u16, width: u16, height: u16) -> (r: Rect)
        ensures
            r == rect_new(x, y, width, height),
            within_bounds(r),
    {
        Rect { x, y, width: x.saturating_add(width) - x, height: y.saturating_add(height) - y }
    }
}

/// `a + b`, held at `u16::MAX`.
pub open spec fn sat_add(a: int, b: int) -> int {
    if a + b > u16::MAX {
        u16::MAX as int
    } else {
        a + b
    }
}

/// `a - b`, held at zero.
pub open spec fn sat_sub(a: int, b: int) -> int {
    if a - b < 0 {
        0
    } else {
        a - b
    }
}

/// Twice `a`, held at `u16::MAX`.
pub open spec fn sat_double(a: int) -> int {
    if 2 * a > u16::MAX {
        u16::MAX as int
    } else {
        2 * a
    }
}

fn double_saturating(a: u16) -> (r: u16)
    ensures
        r == sat_double(a as int),
{
    match a.checked_mul(2) {
        Some(d) => d,
        None => u16::MAX,
    }
}

/// The area inside `container` once `padding` cells are left free on every
/// side; sizes that would go below zero are held at zero, coordinates that
/// would pass `u16::MAX` are held there, and the size is cut to keep the
/// edges within `u16`.
pub fn inset(container: Rect, padding: u16) -> (r: Rect)
    ensures
        r == rect_new(
            sat_add(container.x as int, padding as int) as u16,
            sat_add(container.y as int, padding as int) as u16,
            sat_sub(container.width as int, sat_double(padding as int)) as u16,
            sat_sub(container.height as int, sat_double(padding as int)) as u16,
        ),
{
    let twice = double_saturating(padding);
    Rect::new(
        container.x.saturating_add(padding),
        container.y.saturating_add(padding),
        container.width.saturating_sub(twice),
        container.height.saturating_sub(twice),
    )
}

/// An inset area that is not empty lies inside its container.
pub proof fn lemma_inset_inside(container: Rect, padding: u16)
    requires
        within_bounds(container),
    ensures
        ({
            let r = rect_new(
                sat_add(container.x as int, padding as int) as u16,
                sat_add(container.y as int, padding as int) as u16,
                sat_sub(container.width as int, sat_double(padding as int)) as u16,
                sat_sub(container.height as int, sat_double(padding as int)) as u16,
            );
            &&& within_bounds(r)
            &&& r.width > 0 ==> container.x <= r.x && r.x + r.width <= container.x
                + container.width
            &&& r.height > 0 ==> container.y <= r.y && r.y + r.height <= container.y
                + container.height
        }),
{
}

} // verus!
