//! Screen geometry: the rectangle widgets draw into, and the splits the
//! root window uses to lay its children out.

use vstd::prelude::*;

verus! {

/// A rectangular screen area in terminal cells.
#[derive(Debug, Clone, Copy, PartialEq, Eq, Structural)]
pub struct Rect {
    pub x: u16,
    pub y: u16,
    pub width: u16,
    pub height: u16,
}

impl Rect {
    pub fn new(x: u16, y: u16, width: u16, height: u16) -> (r: Rect)
        ensures
            r == (Rect { x, y, width, height }),
    {
        Rect { x, y, width, height }
    }

    /// The rectangle shrunk by a margin on each side; a margin larger than
    /// the rectangle leaves no area.
    pub fn inner(self, horizontal: u16, vertical: u16) -> (r: Rect)
        requires
            horizontal <= 0x7FFF,
            vertical <= 0x7FFF,
            self.x + self.width <= u16::MAX,
            self.y + self.height <= u16::MAX,
        ensures
            self.width < 2 * horizontal || self.height < 2 * vertical ==> r == (Rect {
                x: 0u16,
                y: 0u16,
                width: 0u16,
                height: 0u16,
            }),
            self.width >= 2 * horizontal && self.height >= 2 * vertical ==> r == (Rect {
                x: (self.x + horizontal) as u16,
                y: (self.y + vertical) as u16,
                width: (self.width - 2 * horizontal) as u16,
                height: (self.height - 2 * vertical) as u16,
            }),
    {
        let doubled_horizontal = 2 * horizontal;
        let doubled_vertical = 2 * vertical;
        if self.width < doubled_horizontal || self.height < doubled_vertical {
            Rect { x: 0, y: 0, width: 0, height: 0 }
        } else {
            Rect {
                x: self.x.saturating_add(horizontal),
                y: self.y.saturating_add(vertical),
                width: self.width - doubled_horizontal,
                height: self.height - doubled_vertical,
            }
        }
    }
}

/// Whether `inner` lies within `outer`.
pub open spec fn rect_within(inner: Rect, outer: Rect) -> bool {
    &&& outer.x <= inner.x
    &&& inner.x + inner.width <= outer.x + outer.width
    &&& outer.y <= inner.y
    &&& inner.y + inner.height <= outer.y + outer.height
}

/// Relies on ratatui's `Layout::split` in the horizontal direction with
/// the constraints `Percentage(40)` and `Percentage(60)`: it returns one
/// segment per constraint; each segment keeps the area's `y` and `height`,
/// and its horizontal extent stays within the area's (the solver bounds
/// every segment variable by the area as a required constraint, and the
/// rounded end points are clamped by a saturating subtraction).
#[verifier::external_body]
pub(crate) fn split_sidebar_viewer(area: Rect) -> (r: (Rect, Rect))
    ensures
        r.0.y == area.y && r.0.height == area.height,
        r.1.y == area.y && r.1.height == area.height,
        area.x <= r.0.x && r.0.x + r.0.width <= area.x + area.width,
        area.x <= r.1.x && r.1.x + r.1.width <= area.x + area.width,
{
    let constraints = [
        ratatui::layout::Constraint::Percentage(40),
        ratatui::layout::Constraint::Percentage(60),
    ];
    let rect = ratatui::layout::Rect { x: area.x, y: area.y, width: area.width, height: area.height };
    let c = ratatui::layout::Layout::horizontal(constraints).split(rect);
    (
        Rect { x: c[0].x, y: c[0].y, width: c[0].width, height: c[0].height },
        Rect { x: c[1].x, y: c[1].y, width: c[1].width, height: c[1].height },
    )
}

/// The `idx`-th of the fixed-height rows the sidebar lays its items out
/// in: each row is `row_height` cells tall, stacked from the top of
/// `area`.
pub fn fixed_row(area: Rect, row_height: u16, idx: u16) -> (r: Rect)
    requires
        row_height >= 1,
        idx * row_height + row_height <= area.height,
        area.y + area.height <= u16::MAX,
    ensures
        r == (Rect {
            x: area.x,
            y: (area.y + idx * row_height) as u16,
            width: area.width,
            height: row_height,
        }),
        rect_within(r, area),
{
    Rect { x: area.x, y: area.y + idx * row_height, width: area.width, height: row_height }
}

} // verus!
