//! Rectangles of the screen, and the layout calls of the `ratatui` crate.

use ratatui::layout::{Constraint as OuterConstraint, Layout as OuterLayout, Rect as OuterRect};
use vstd::prelude::*;

verus! {

/// A rectangle of character cells.
#[derive(Debug, Clone, Copy, PartialEq, Eq, Structural)]
pub struct Rect {
    pub x: u16,
    pub y: u16,
    pub width: u16,
    pub height: u16,
}

/// The axis along which an area is divided.
#[derive(Debug, Clone, Copy, PartialEq, Eq, Structural)]
pub enum Direction {
    /// Left to right.
    Horizontal,
    /// Top to bottom.
    Vertical,
}

/// What a part of a divided area asks for.
#[derive(Debug, Clone, Copy, PartialEq, Eq, Structural)]
pub enum Constraint {
    /// At least so many cells, and all that is left over.
    Min(u16),
    /// So many cells.
    Length(u16),
    /// So many hundredths of the whole.
    Percentage(u16),
}

/// A coordinate, or the last one that there is.
pub open spec fn saturated(n: int) -> int {
    if n > 65535 {
        65535
    } else {
        n
    }
}

/// A size, or zero where it would be negative.
pub open spec fn or_zero(n: int) -> int {
    if n < 0 {
        0
    } else {
        n
    }
}

impl Rect {
    /// The first column behind the area.
    pub open spec fn right(self) -> int {
        saturated(self.x + self.width)
    }

    /// The first row below the area.
    pub open spec fn bottom(self) -> int {
        saturated(self.y + self.height)
    }

    /// Whether every cell of the area has coordinates.
    pub open spec fn fits(self) -> bool {
        self.x + self.width <= 65535 && self.y + self.height <= 65535
    }

    /// Whether a cell is in the area.
    pub open spec fn has(self, column: int, row: int) -> bool {
        self.x <= column < self.right() && self.y <= row < self.bottom()
    }

    /// The area without a margin on its left and its right; nothing where the
    /// margin leaves none of it.
    pub open spec fn without_margin(self, margin: u16) -> Rect {
        if self.width < saturated(2 * margin) {
            Rect { x: 0, y: 0, width: 0, height: 0 }
        } else {
            Rect {
                x: saturated(self.x + margin) as u16,
                width: (self.width - saturated(2 * margin)) as u16,
                ..self
            }
        }
    }

    /// The area inside a border of one cell and some padding on the left and the
    /// right.
    pub open spec fn inside_border(self, padding: u16) -> Rect {
        let x = if saturated(self.x + 1) <= self.right() {
            saturated(self.x + 1)
        } else {
            self.right()
        };
        let y = if saturated(self.y + 1) <= self.bottom() {
            saturated(self.y + 1)
        } else {
            self.bottom()
        };
        Rect {
            x: saturated(x + padding) as u16,
            y: y as u16,
            width: or_zero(or_zero(self.width - 2) - saturated(2 * padding)) as u16,
            height: or_zero(self.height - 2) as u16,
        }
    }

    /// The two parts of an area that is cut at a coordinate.
    pub open spec fn cut_at(self, direction: Direction, at: int) -> (Rect, Rect) {
        match direction {
            Direction::Horizontal => (
                Rect { width: (at - self.x) as u16, ..self },
                Rect { x: at as u16, width: (self.right() - at) as u16, ..self },
            ),
            Direction::Vertical => (
                Rect { height: (at - self.y) as u16, ..self },
                Rect { y: at as u16, height: (self.bottom() - at) as u16, ..self },
            ),
        }
    }

    /// Where the area begins and ends along an axis.
    pub open spec fn extent(self, direction: Direction) -> (int, int) {
        match direction {
            Direction::Horizontal => (self.x as int, self.right()),
            Direction::Vertical => (self.y as int, self.bottom()),
        }
    }

    /// Whether a cell is in the area.
    pub fn contains(self, column: u16, row: u16) -> (r: bool)
        ensures
            r == self.has(column as int, row as int),
    {
        rect_contains(self, column, row)
    }

    /// The area inside a border of one cell and some padding on the left and the
    /// right.
    pub fn inner(self, padding: u16) -> (r: Rect)
        ensures
            r == self.inside_border(padding),
    {
        block_inner(self, padding)
    }

    /// Divides the area, less a margin on its left and its right, in two.
    pub fn split(
        self,
        direction: Direction,
        margin: u16,
        first: Constraint,
        second: Constraint,
    ) -> (r: (Rect, Rect))
        requires
            divides(first, second),
        ensures
            r == self.divided(direction, margin, first, second),
    {
        layout_split(self, direction, margin, first, second)
    }

    /// The two parts of the area, less a margin, that two constraints ask for.
    pub open spec fn divided(
        self,
        direction: Direction,
        margin: u16,
        first: Constraint,
        second: Constraint,
    ) -> (Rect, Rect) {
        let inner = self.without_margin(margin);
        let (start, end) = inner.extent(direction);
        inner.cut_at(direction, cut_between(first, second, start, end))
    }
}

/// The pairs of constraints that fill an area between them, one way only: all but
/// a fixed size, all but a share, or two halves.
pub open spec fn divides(first: Constraint, second: Constraint) -> bool {
    match (first, second) {
        (Constraint::Min(least), Constraint::Length(_)) => least <= 32767,
        (Constraint::Min(least), Constraint::Percentage(share)) => least == 0 && share <= 100,
        (Constraint::Percentage(a), Constraint::Percentage(b)) => a == 50 && b == 50,
        _ => false,
    }
}

/// Where such a pair cuts the stretch from `start` to `end`. A fixed size gives way
/// to the least size of the other part. A share is measured from the end and its
/// edge rounded to the nearest cell, upward from the middle.
pub open spec fn cut_between(first: Constraint, second: Constraint, start: int, end: int) -> int {
    let size = end - start;
    match (first, second) {
        (Constraint::Min(least), Constraint::Length(length)) => {
            if size >= least + length {
                end - length
            } else if size >= least {
                start + least
            } else {
                end
            }
        },
        (_, Constraint::Percentage(share)) => (100 * end - size * share + 50) / 100,
        _ => start,
    }
}

/// Calls `ratatui::layout::Rect::contains`: whether a position is in the area,
/// whose far edges stop at the largest coordinate.
#[verifier::external_body]
fn rect_contains(area: Rect, column: u16, row: u16) -> (r: bool)
    ensures
        r == area.has(column as int, row as int),
{
    let Rect { x, y, width, height } = area;
    OuterRect { x, y, width, height }.contains((column, row).into())
}

/// Calls `ratatui::widgets::Block::inner` on a block with all borders and
/// horizontal padding: the area that the block leaves for its content.
#[verifier::external_body]
fn block_inner(area: Rect, padding: u16) -> (r: Rect)
    ensures
        r == area.inside_border(padding),
{
    let Rect { x, y, width, height } = area;
    let block = ratatui::widgets::Block::default()
        .padding(ratatui::widgets::Padding::horizontal(padding))
        .borders(ratatui::widgets::Borders::ALL);
    let r = block.inner(OuterRect { x, y, width, height });
    Rect { x: r.x, y: r.y, width: r.width, height: r.height }
}

/// Calls `ratatui::layout::Layout::split` with two constraints. The parts lie side
/// by side along the direction, fill the area less its margin, and are as wide
/// across as that is. Their edge is where the constraints, in the documented order
/// of their priorities, put it, rounded to the nearest cell.
#[verifier::external_body]
fn layout_split(
    area: Rect,
    direction: Direction,
    margin: u16,
    first: Constraint,
    second: Constraint,
) -> (r: (Rect, Rect))
    requires
        divides(first, second),
    ensures
        r == area.divided(direction, margin, first, second),
{
    let Rect { x, y, width, height } = area;
    let outer = |c: Constraint| match c {
        Constraint::Min(n) => OuterConstraint::Min(n),
        Constraint::Length(n) => OuterConstraint::Length(n),
        Constraint::Percentage(n) => OuterConstraint::Percentage(n),
    };
    let layout = match direction {
        Direction::Horizontal => OuterLayout::horizontal([outer(first), outer(second)]),
        Direction::Vertical => OuterLayout::vertical([outer(first), outer(second)]),
    };
    let parts = layout.horizontal_margin(margin).split(OuterRect { x, y, width, height });
    let own = |r: OuterRect| Rect { x: r.x, y: r.y, width: r.width, height: r.height };
    (own(parts[0]), own(parts[1]))
}

} // verus!
