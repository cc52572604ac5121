use vstd::prelude::*;

use crate::layout::{clamped_rect, new_rect, sat_add, sat_sub, split_vertical, vertical_split, Constraint, Rect};
use crate::text::{decimal, push_char, push_decimal};

verus! {

/// The title of the GPU panel: `GPUs  2x`.
pub fn gpu_panel_title(gpu_count: usize) -> (title: String)
    ensures
        title@ == "GPUs  "@ + decimal(gpu_count as nat) + seq!['x'],
{
    let mut t = String::new();
    t.append("GPUs  ");
    push_decimal(&mut t, gpu_count as u128);
    push_char(&mut t, 'x');
    assert(t@ =~= "GPUs  "@ + decimal(gpu_count as nat) + seq!['x']);
    t
}

/// Three rows for each GPU's card, from the top of the panel.
pub open spec fn gpu_card_constraints(gpu_count: nat) -> Seq<Constraint> {
    Seq::new(gpu_count, |_i: int| Constraint::Length(3))
}

/// Splits the inside of the GPU panel into one card per GPU.
pub fn gpu_panel_layout(inner: Rect, gpu_count: usize) -> (cards: Vec<Rect>)
    ensures
        cards@ == vertical_split(inner, gpu_card_constraints(gpu_count as nat)),
        cards.len() == gpu_count,
{
    let mut constraints: Vec<Constraint> = Vec::new();
    let mut i: usize = 0;
    while i < gpu_count
        invariant
            i <= gpu_count,
            constraints@ == gpu_card_constraints(i as nat),
        decreases gpu_count - i,
    {
        constraints.push(Constraint::Length(3));
        i += 1;
        assert(constraints@ =~= gpu_card_constraints(i as nat));
    }
    split_vertical(inner, &constraints)
}

/// Where the pieces of a GPU card go.
#[derive(Clone, Copy, Debug, PartialEq, Eq, Structural)]
pub struct GpuCardAreas {
    /// The line naming the GPU with its temperature, power, clock and fan.
    pub header: Rect,
    /// The column where the `GPU` and memory labels start.
    pub label_x: u16,
    /// The row of the utilization bar.
    pub util_y: u16,
    /// The utilization gauge.
    pub util_gauge: Rect,
    /// The row of the memory bar.
    pub mem_y: u16,
    /// The memory gauge.
    pub mem_gauge: Rect,
}

/// The card's three lines: header, utilization and memory.
pub open spec fn gpu_card_lines() -> Seq<Constraint> {
    seq![Constraint::Length(1), Constraint::Length(1), Constraint::Length(1)]
}

/// Whether a card area is large enough to draw a card in: at least one row
/// and 30 columns.
pub open spec fn gpu_card_fits(area: Rect) -> bool {
    area.height > 0 && area.width >= 30
}

/// The pieces of a GPU card drawn in `area`: the labels two cells in from
/// the left, and gauges four cells after them, 18 cells narrower than the
/// card (positions saturate at the end of the coordinate space).
pub open spec fn gpu_card_areas(area: Rect) -> Option<GpuCardAreas> {
    if !gpu_card_fits(area) {
        None
    } else {
        let lines = vertical_split(area, gpu_card_lines());
        let label_x = sat_add(area.x as nat, 2) as u16;
        let bar_width = sat_sub(area.width as nat, 18) as u16;
        Some(
            GpuCardAreas {
                header: lines[0],
                label_x,
                util_y: lines[1].y,
                util_gauge: clamped_rect(sat_add(label_x as nat, 4) as u16, lines[1].y, bar_width, 1),
                mem_y: lines[2].y,
                mem_gauge: clamped_rect(sat_add(label_x as nat, 4) as u16, lines[2].y, bar_width, 1),
            },
        )
    }
}

/// Lays out a GPU card, or gives nothing when the area is too small for one.
pub fn gpu_card_layout(area: Rect) -> (r: Option<GpuCardAreas>)
    ensures
        r == gpu_card_areas(area),
{
    if area.height == 0 || area.width < 30 {
        return None;
    }
    let constraints = vec![Constraint::Length(1), Constraint::Length(1), Constraint::Length(1)];
    assert(constraints@ =~= gpu_card_lines());
    let lines = split_vertical(area, &constraints);
    let label_x = area.x.saturating_add(2);
    let bar_x = label_x.saturating_add(4);
    let bar_width = area.width.saturating_sub(18);
    Some(
        GpuCardAreas {
            header: lines[0],
            label_x,
            util_y: lines[1].y,
            util_gauge: new_rect(bar_x, lines[1].y, bar_width, 1),
            mem_y: lines[2].y,
            mem_gauge: new_rect(bar_x, lines[2].y, bar_width, 1),
        },
    )
}

/// The label of a GPU's memory bar: `MGP` when the GPU shares the host's
/// memory, `MEM` when it has its own.
pub fn memory_metric_label(memory_is_shared: bool) -> (label: String)
    ensures
        label@ == (if memory_is_shared {
            seq!['M', 'G', 'P']
        } else {
            seq!['M', 'E', 'M']
        }),
{
    let mut l = String::new();
    push_char(&mut l, 'M');
    if memory_is_shared {
        push_char(&mut l, 'G');
        push_char(&mut l, 'P');
    } else {
        push_char(&mut l, 'E');
        push_char(&mut l, 'M');
    }
    assert(l@ =~= (if memory_is_shared {
        seq!['M', 'G', 'P']
    } else {
        seq!['M', 'E', 'M']
    }));
    l
}


/// What the label of a GPU's memory gauge shows.
#[derive(Clone, Copy, Debug, PartialEq, Eq, Structural)]
pub enum MemoryLabel {
    /// Memory used out of the GPU's total.
    UsedOfTotal,
    /// Memory used, for a GPU that shares the host's memory and reports no
    /// total of its own.
    UsedShared,
    /// Nothing to show.
    NotAvailable,
}

/// Picks the label of a GPU's memory gauge: used of total when the GPU
/// reports a total, the used memory alone when it shares the host's memory,
/// and `N/A` otherwise.
pub fn memory_label(memory_total_bytes: u64, memory_is_shared: bool) -> (l: MemoryLabel)
    ensures
        l == (if memory_total_bytes > 0 {
            MemoryLabel::UsedOfTotal
        } else if memory_is_shared {
            MemoryLabel::UsedShared
        } else {
            MemoryLabel::NotAvailable
        }),
{
    if memory_total_bytes > 0 {
        MemoryLabel::UsedOfTotal
    } else if memory_is_shared {
        MemoryLabel::UsedShared
    } else {
        MemoryLabel::NotAvailable
    }
}


/// The start of a GPU card's header: `  GPU 0  `.
pub fn gpu_header_label(index: u32) -> (label: String)
    ensures
        label@ == "  GPU "@ + decimal(index as nat) + "  "@,
{
    let mut l = String::new();
    l.append("  GPU ");
    push_decimal(&mut l, index as u128);
    l.append("  ");
    assert(l@ =~= "  GPU "@ + decimal(index as nat) + "  "@);
    l
}

} // verus!
