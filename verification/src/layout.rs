//! Rectangles of terminal cells, and the splitting of one into parts by constraints.

use ratatui::layout as ratatui_layout;
use vstd::prelude::*;

verus! {

/// A rectangle of terminal cells: the column and row of its top left corner, and its size.
#[derive(Clone, Copy, Debug, PartialEq, Eq, Structural)]
pub struct Rect {
    pub x: u16,
    pub y: u16,
    pub width: u16,
    pub height: u16,
}

/// The axis along which an area is split.
#[derive(Clone, Copy, Debug, PartialEq, Eq, Structural)]
pub enum Direction {
    Horizontal,
    Vertical,
}

/// What is asked of the size of one part of a split area.
#[derive(Clone, Copy, Debug, PartialEq, Eq, Structural)]
pub enum Constraint {
    /// Exactly this many cells.
    Length(u16),
    /// At least this many cells.
    Min(u16),
    /// This many hundredths of the area.
    Percentage(u16),
}

/// How an area is to be split: along which axis, and what is asked of each part.
#[derive(Clone, Debug, PartialEq, Eq)]
pub struct Layout {
    pub direction: Direction,
    pub constraints: Vec<Constraint>,
}

impl View for Layout {
    type V = (Direction, Seq<Constraint>);

    open spec fn view(&self) -> (Direction, Seq<Constraint>) {
        (self.direction, self.constraints@)
    }
}

/// Whether `part` reaches across `area` at right angles to `direction`: a part of a vertical
/// split has the columns of the area, a part of a horizontal split has its rows.
pub open spec fn spans_across(direction: Direction, area: Rect, part: Rect) -> bool {
    match direction {
        Direction::Vertical => part.x == area.x && part.width == area.width,
        Direction::Horizontal => part.y == area.y && part.height == area.height,
    }
}

impl Layout {
    /// A layout of two parts.
    pub fn of_two(direction: Direction, first: Constraint, second: Constraint) -> (layout: Layout)
        ensures
            layout@ == (direction, seq![first, second]),
    {
        let mut constraints = Vec::new();
        constraints.push(first);
        constraints.push(second);
        assert(constraints@ =~= seq![first, second]);
        Layout { direction, constraints }
    }

    /// Splits `area` into one part for each constraint, in their order, as `Layout::split` of
    /// ratatui does for a layout with this direction and these constraints, without margin or
    /// spacing. The solver behind that call settles where each part begins and ends along the
    /// direction of the split; it walks hash maps on its way, so nothing is claimed of that here,
    /// not even that two calls agree. What is claimed: there is one part for each constraint, and
    /// each part reaches across the area in the other direction.
    #[verifier::external_body]
    pub(crate) fn split(&self, area: Rect) -> (parts: Vec<Rect>)
        ensures
            parts.len() == self.constraints.len(),
            forall|i: int|
                0 <= i < parts.len() ==> spans_across(self.direction, area, #[trigger] parts[i]),
    {
        let parts = ratatui_layout::Layout::new(
            match self.direction {
                Direction::Horizontal => ratatui_layout::Direction::Horizontal,
                Direction::Vertical => ratatui_layout::Direction::Vertical,
            },
            self.constraints.iter().map(|constraint| match *constraint {
                Constraint::Length(cells) => ratatui_layout::Constraint::Length(cells),
                Constraint::Min(cells) => ratatui_layout::Constraint::Min(cells),
                Constraint::Percentage(share) => ratatui_layout::Constraint::Percentage(share),
            }),
        ).split(ratatui_layout::Rect { x: area.x, y: area.y, width: area.width, height: area.height });
        parts.iter().map(|part| Rect { x: part.x, y: part.y, width: part.width, height: part.height }).collect()
    }
}

} // verus!
