use vstd::prelude::*;

verus! {

/// A rectangle of terminal cells: its top-left corner and its size.
#[derive(Clone, Copy, Debug, PartialEq, Eq, Structural)]
pub struct Rect {
    pub x: u16,
    pub y: u16,
    pub width: u16,
    pub height: u16,
}

/// How much room a piece of a layout asks for along the split direction.
#[derive(Clone, Copy, Debug, PartialEq, Eq, Structural)]
pub enum Constraint {
    /// Exactly this many cells.
    Length(u16),
    /// This percentage of the area.
    Percentage(u16),
    /// A share, by this weight, of what the other pieces leave.
    Fill(u16),
}

/// The areas that ratatui's solver gives when it splits `area` from top to
/// bottom by `constraints`.
pub uninterp spec fn vertical_split(area: Rect, constraints: Seq<Constraint>) -> Seq<Rect>;

/// The areas that ratatui's solver gives when it splits `area` from left to
/// right by `constraints`.
pub uninterp spec fn horizontal_split(area: Rect, constraints: Seq<Constraint>) -> Seq<Rect>;

/// Trusted: calls ratatui's `Layout::vertical(constraints).split(area)`.
/// The result is named `vertical_split`; from ratatui's source the contract
/// adds that there is one area per constraint and that each spans the full
/// width of `area` (ratatui keeps `x` and `width` of a vertical split).
/// Where the areas start and how tall they are is left to the name.
#[verifier::external_body]
pub(crate) fn split_vertical(area: Rect, constraints: &Vec<Constraint>) -> (areas: Vec<Rect>)
    ensures
        areas@ == vertical_split(area, constraints@),
        areas.len() == constraints.len(),
        forall|i: int| 0 <= i < areas.len() ==> areas[i].x == area.x && areas[i].width == area.width,
{
    let cs: Vec<ratatui::layout::Constraint> = constraints.iter().map(|c| match *c {
        Constraint::Length(n) => ratatui::layout::Constraint::Length(n),
        Constraint::Percentage(n) => ratatui::layout::Constraint::Percentage(n),
        Constraint::Fill(n) => ratatui::layout::Constraint::Fill(n),
    }).collect();
    let r = ratatui::layout::Rect { x: area.x, y: area.y, width: area.width, height: area.height };
    ratatui::layout::Layout::vertical(cs).split(r).iter().map(
        |a| Rect { x: a.x, y: a.y, width: a.width, height: a.height },
    ).collect()
}

/// Trusted: calls ratatui's `Layout::horizontal(constraints).split(area)`.
/// The result is named `horizontal_split`; from ratatui's source the
/// contract adds that there is one area per constraint and that each spans
/// the full height of `area` (ratatui keeps `y` and `height` of a
/// horizontal split). Where the areas start and how wide they are is left
/// to the name.
#[verifier::external_body]
pub(crate) fn split_horizontal(area: Rect, constraints: &Vec<Constraint>) -> (areas: Vec<Rect>)
    ensures
        areas@ == horizontal_split(area, constraints@),
        areas.len() == constraints.len(),
        forall|i: int| 0 <= i < areas.len() ==> areas[i].y == area.y && areas[i].height == area.height,
{
    let cs: Vec<ratatui::layout::Constraint> = constraints.iter().map(|c| match *c {
        Constraint::Length(n) => ratatui::layout::Constraint::Length(n),
        Constraint::Percentage(n) => ratatui::layout::Constraint::Percentage(n),
        Constraint::Fill(n) => ratatui::layout::Constraint::Fill(n),
    }).collect();
    let r = ratatui::layout::Rect { x: area.x, y: area.y, width: area.width, height: area.height };
    ratatui::layout::Layout::horizontal(cs).split(r).iter().map(
        |a| Rect { x: a.x, y: a.y, width: a.width, height: a.height },
    ).collect()
}

/// `a + b`, saturating at the largest 16-bit value.
pub open spec fn sat_add(a: nat, b: nat) -> nat {
    if a + b > u16::MAX {
        u16::MAX as nat
    } else {
        a + b
    }
}

/// `a - b`, saturating at 0.
pub open spec fn sat_sub(a: nat, b: nat) -> nat {
    if a >= b {
        (a - b) as nat
    } else {
        0
    }
}

/// The smaller of `a` and `b`.
pub open spec fn min(a: nat, b: nat) -> nat {
    if a <= b {
        a
    } else {
        b
    }
}

/// The larger of `a` and `b`.
pub open spec fn max(a: nat, b: nat) -> nat {
    if a >= b {
        a
    } else {
        b
    }
}

/// The area inside the rounded border of a panel: one cell in from each
/// side, as ratatui's `Block::inner` gives it for a block with all borders
/// and no padding.
pub open spec fn bordered_inner(area: Rect) -> Rect {
    Rect {
        x: min(sat_add(area.x as nat, 1), sat_add(area.x as nat, area.width as nat)) as u16,
        y: min(sat_add(area.y as nat, 1), sat_add(area.y as nat, area.height as nat)) as u16,
        width: sat_sub(area.width as nat, 2) as u16,
        height: sat_sub(area.height as nat, 2) as u16,
    }
}

/// The area inside a panel's border.
pub fn panel_inner(area: Rect) -> (inner: Rect)
    ensures
        inner == bordered_inner(area),
{
    let right = area.x.saturating_add(area.width);
    let bottom = area.y.saturating_add(area.height);
    let x1 = area.x.saturating_add(1);
    let y1 = area.y.saturating_add(1);
    Rect {
        x: if x1 <= right { x1 } else { right },
        y: if y1 <= bottom { y1 } else { bottom },
        width: area.width.saturating_sub(2),
        height: area.height.saturating_sub(2),
    }
}

/// Whether an area has no cells.
pub open spec fn is_empty_area(area: Rect) -> bool {
    area.width == 0 || area.height == 0
}


/// Whether the rectangle lies within the 16-bit coordinate space, as every
/// area that ratatui makes does.
pub open spec fn fits(area: Rect) -> bool {
    area.x + area.width <= u16::MAX && area.y + area.height <= u16::MAX
}

/// The rectangle that ratatui's `Rect::new` makes: the size is cut down so
/// that the rectangle stays within the 16-bit coordinate space.
pub open spec fn clamped_rect(x: u16, y: u16, width: u16, height: u16) -> Rect {
    Rect {
        x,
        y,
        width: min(width as nat, (u16::MAX - x) as nat) as u16,
        height: min(height as nat, (u16::MAX - y) as nat) as u16,
    }
}

/// Makes a rectangle as ratatui's `Rect::new` does.
pub fn new_rect(x: u16, y: u16, width: u16, height: u16) -> (r: Rect)
    ensures
        r == clamped_rect(x, y, width, height),
        fits(r),
{
    let max_width = u16::MAX - x;
    let max_height = u16::MAX - y;
    Rect {
        x,
        y,
        width: if width > max_width { max_width } else { width },
        height: if height > max_height { max_height } else { height },
    }
}

/// The one-row gauge drawn in a bar area: one cell in from the left and
/// right edges, on the area's first row (the left edge saturating at the
/// end of the coordinate space).
pub open spec fn gauge_row(area: Rect) -> Rect {
    clamped_rect(sat_add(area.x as nat, 1) as u16, area.y, sat_sub(area.width as nat, 2) as u16, 1)
}

/// The one-row gauge drawn in a bar area.
pub fn gauge_rect(area: Rect) -> (r: Rect)
    ensures
        r == gauge_row(area),
{
    new_rect(area.x.saturating_add(1), area.y, area.width.saturating_sub(2), 1)
}


/// The space for a panel's content: the area inside its border, or nothing
/// when that has no cells.
pub fn panel_content(area: Rect) -> (content: Option<Rect>)
    ensures
        content == (if is_empty_area(bordered_inner(area)) {
            None
        } else {
            Some(bordered_inner(area))
        }),
{
    let inner = panel_inner(area);
    if inner.height == 0 || inner.width == 0 {
        None
    } else {
        Some(inner)
    }
}

} // verus!
