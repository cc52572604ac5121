use vstd::prelude::*;

use crate::layout::{split_vertical, vertical_split, Constraint, Rect};

verus! {

/// The areas of the memory panel, from top to bottom.
#[derive(Clone, Copy, Debug, PartialEq, Eq, Structural)]
pub struct MemoryAreas {
    pub ram_label: Rect,
    pub ram_bar: Rect,
    pub swap_label: Rect,
    pub swap_bar: Rect,
    /// Buffers, cache and available memory.
    pub detail: Rect,
    /// The time-window statistics.
    pub stats: Rect,
    /// The usage history.
    pub sparkline: Rect,
}

/// Six lines, then the rest for the usage history.
pub open spec fn memory_panel_constraints() -> Seq<Constraint> {
    seq![
        Constraint::Length(1),
        Constraint::Length(1),
        Constraint::Length(1),
        Constraint::Length(1),
        Constraint::Length(1),
        Constraint::Length(1),
        Constraint::Fill(1),
    ]
}

/// Splits the inside of the memory panel.
pub fn memory_panel_layout(inner: Rect) -> (a: MemoryAreas)
    ensures
        ({
            let s = vertical_split(inner, memory_panel_constraints());
            a == MemoryAreas {
                ram_label: s[0],
                ram_bar: s[1],
                swap_label: s[2],
                swap_bar: s[3],
                detail: s[4],
                stats: s[5],
                sparkline: s[6],
            }
        }),
{
    let constraints = vec![
        Constraint::Length(1),
        Constraint::Length(1),
        Constraint::Length(1),
        Constraint::Length(1),
        Constraint::Length(1),
        Constraint::Length(1),
        Constraint::Fill(1),
    ];
    assert(constraints@ =~= memory_panel_constraints());
    let s = split_vertical(inner, &constraints);
    MemoryAreas {
        ram_label: s[0],
        ram_bar: s[1],
        swap_label: s[2],
        swap_bar: s[3],
        detail: s[4],
        stats: s[5],
        sparkline: s[6],
    }
}

} // verus!
