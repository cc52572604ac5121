use vstd::prelude::*;

use crate::layout::{
    clamped_rect, fits, gauge_rect, gauge_row, is_empty_area, max, new_rect, sat_add, sat_sub,
    split_vertical, vertical_split, Constraint, Rect,
};
use crate::state::AppState;
use crate::text::{decimal, push_char, push_decimal};

verus! {

/// The number of columns of per-core bars: 2 up to 16 cores, 4 up to 64,
/// 8 beyond.
pub open spec fn core_columns(core_count: nat) -> nat {
    if core_count <= 16 {
        2
    } else if core_count <= 64 {
        4
    } else {
        8
    }
}

/// Determines how many columns to use for the per-core display.
pub fn per_core_columns(core_count: usize) -> (cols: u16)
    ensures
        cols == core_columns(core_count as nat),
{
    if core_count <= 16 {
        2
    } else if core_count <= 64 {
        4
    } else {
        8
    }
}

/// The number of rows of per-core bars: the cores, counted modulo 2^16 as
/// the display narrows the count to a row count, spread over the columns,
/// rounded up.
pub open spec fn core_rows(core_count: nat) -> nat {
    let n = core_count % 65536;
    let cols = core_columns(core_count);
    ((n + cols - 1) as nat) / cols
}

fn core_row_count(core_count: usize) -> (rows: u16)
    ensures
        rows == core_rows(core_count as nat),
        rows <= 32768,
{
    let cols = per_core_columns(core_count);
    let n: u32 = (core_count % 65536) as u32;
    let rows = (n + cols as u32 - 1) / cols as u32;
    rows as u16
}

/// The rows the CPU and memory panels ask for: 10 for the aggregate view;
/// with one bar per core, the border, the info line, the bar rows and the
/// stats line, but never less than 10.
pub open spec fn cpu_mem_want(show_per_core: bool, core_count: Option<usize>) -> nat {
    if !show_per_core {
        10
    } else {
        let n = match core_count {
            Some(c) => c as nat,
            None => 0,
        };
        max(2 + 1 + core_rows(n) + 1, 10)
    }
}

/// The height the CPU and memory panels ask for.
pub fn compute_cpu_mem_want<D, N>(state: &AppState<D, N>) -> (want: u16)
    ensures
        want == cpu_mem_want(state.show_per_core, state.cpu_core_count),
        10 <= want <= 32772,
{
    if !state.show_per_core {
        return 10;
    }
    let core_count = match state.cpu_core_count {
        Some(c) => c,
        None => 0,
    };
    let rows = core_row_count(core_count);
    let want = 2 + 1 + rows + 1;
    if want > 10 { want } else { 10 }
}

/// The title of the CPU panel: with one bar per core it names the core
/// count, as in `CPU (8 cores)`.
pub open spec fn cpu_title(show_per_core: bool, core_count: nat) -> Seq<char> {
    if show_per_core {
        seq!['C', 'P', 'U', ' ', '('] + decimal(core_count) + seq![' ', 'c', 'o', 'r', 'e', 's', ')']
    } else {
        seq!['C', 'P', 'U']
    }
}

/// Builds the title of the CPU panel.
pub fn cpu_panel_title(show_per_core: bool, core_count: usize) -> (title: String)
    ensures
        title@ == cpu_title(show_per_core, core_count as nat),
{
    let mut t = String::new();
    push_char(&mut t, 'C');
    push_char(&mut t, 'P');
    push_char(&mut t, 'U');
    if show_per_core {
        push_char(&mut t, ' ');
        push_char(&mut t, '(');
        push_decimal(&mut t, core_count as u128);
        push_char(&mut t, ' ');
        push_char(&mut t, 'c');
        push_char(&mut t, 'o');
        push_char(&mut t, 'r');
        push_char(&mut t, 'e');
        push_char(&mut t, 's');
        push_char(&mut t, ')');
    }
    assert(t@ =~= cpu_title(show_per_core, core_count as nat));
    t
}

/// The areas of the CPU panel in its aggregate view, from top to bottom.
#[derive(Clone, Copy, Debug, PartialEq, Eq, Structural)]
pub struct CpuAggregateAreas {
    /// The line with usage, temperature, power, frequency, load and tasks.
    pub info: Rect,
    /// The usage gauge and the usage breakdown below it.
    pub bar: Rect,
    /// The line with the time-window statistics.
    pub stats: Rect,
    /// The usage history.
    pub sparkline: Rect,
}

/// How the aggregate view splits the panel: one line, two lines, one line,
/// and the rest.
pub open spec fn cpu_aggregate_constraints() -> Seq<Constraint> {
    seq![Constraint::Length(1), Constraint::Length(2), Constraint::Length(1), Constraint::Fill(1)]
}

/// Splits the inside of the CPU panel for the aggregate view.
pub fn cpu_aggregate_layout(inner: Rect) -> (a: CpuAggregateAreas)
    ensures
        ({
            let s = vertical_split(inner, cpu_aggregate_constraints());
            a == CpuAggregateAreas { info: s[0], bar: s[1], stats: s[2], sparkline: s[3] }
        }),
{
    let constraints = vec![
        Constraint::Length(1),
        Constraint::Length(2),
        Constraint::Length(1),
        Constraint::Fill(1),
    ];
    assert(constraints@ =~= cpu_aggregate_constraints());
    let s = split_vertical(inner, &constraints);
    CpuAggregateAreas { info: s[0], bar: s[1], stats: s[2], sparkline: s[3] }
}

/// The areas of the CPU panel with one bar per core, from top to bottom.
#[derive(Clone, Copy, Debug, PartialEq, Eq, Structural)]
pub struct CpuPerCoreAreas {
    /// The line with usage, temperature, power, frequency, load and tasks.
    pub info: Rect,
    /// The grid of per-core bars.
    pub cores: Rect,
    /// The line with the time-window statistics.
    pub stats: Rect,
}

/// How the per-core view splits the panel: one line, a row per row of
/// bars, and the rest.
pub open spec fn cpu_per_core_constraints(core_count: nat) -> Seq<Constraint> {
    seq![Constraint::Length(1), Constraint::Length(core_rows(core_count) as u16), Constraint::Fill(1)]
}

/// Splits the inside of the CPU panel for the per-core view.
pub fn cpu_per_core_layout(inner: Rect, core_count: usize) -> (a: CpuPerCoreAreas)
    ensures
        ({
            let s = vertical_split(inner, cpu_per_core_constraints(core_count as nat));
            a == CpuPerCoreAreas { info: s[0], cores: s[1], stats: s[2] }
        }),
{
    let rows = core_row_count(core_count);
    let constraints = vec![Constraint::Length(1), Constraint::Length(rows), Constraint::Fill(1)];
    assert(constraints@ =~= cpu_per_core_constraints(core_count as nat));
    let s = split_vertical(inner, &constraints);
    CpuPerCoreAreas { info: s[0], cores: s[1], stats: s[2] }
}

/// Where one core's bar goes: its index label at (`x`, `y`), right-aligned
/// in `label_width` cells, then its gauge, if there is room for one.
#[derive(Clone, Copy, Debug, PartialEq, Eq, Structural)]
pub struct CoreCell {
    pub x: u16,
    pub y: u16,
    pub label_width: u16,
    pub gauge: Option<Rect>,
}

/// The column of core `i` in the grid (the index is taken modulo
/// 2^16, as the display narrows it to a cell coordinate).
pub open spec fn core_column(core_count: nat, i: nat) -> nat {
    (i % 65536) % core_columns(core_count)
}

/// The row of core `i` in the grid.
pub open spec fn core_row(core_count: nat, i: nat) -> nat {
    (i % 65536) / core_columns(core_count)
}

/// Where the bar of core `i` goes in the grid `area` of a CPU with
/// `core_count` cores. The area is cut into equal columns; each column
/// keeps its last cell free, a label of 3 cells (4 from 100 cores up) and
/// 5 further cells, and gives the rest to the gauge.
pub open spec fn core_cell(area: Rect, core_count: nat, i: nat) -> CoreCell {
    let col_width = area.width as nat / core_columns(core_count);
    let x = area.x + core_column(core_count, i) * col_width;
    let y = area.y + core_row(core_count, i);
    let label_width: nat = if core_count >= 100 {
        4
    } else {
        3
    };
    let gauge_width = sat_sub(sat_sub(col_width, 1), label_width + 5);
    CoreCell {
        x: x as u16,
        y: y as u16,
        label_width: label_width as u16,
        gauge: if gauge_width > 0 {
            Some(clamped_rect((x + label_width) as u16, y as u16, gauge_width as u16, 1))
        } else {
            None
        },
    }
}

/// How many of `n_cores` cores get a bar: none in an empty area; otherwise
/// the cores up to the first whose row falls below the area.
pub open spec fn shown_cores(area: Rect, core_count: nat, n_cores: nat, shown: nat) -> bool {
    if is_empty_area(area) {
        shown == 0
    } else {
        &&& shown <= n_cores
        &&& forall|i: nat| i < shown ==> #[trigger] core_row(core_count, i) < area.height
        &&& (shown == n_cores || core_row(core_count, shown) >= area.height)
    }
}

proof fn lemma_core_cell_fits(area: Rect, core_count: nat, i: nat)
    requires
        fits(area),
        core_row(core_count, i) < area.height,
    ensures
        ({
            let cols = core_columns(core_count);
            let col_width = area.width as nat / cols;
            &&& core_column(core_count, i) * col_width + col_width <= area.width
            &&& area.y + core_row(core_count, i) < area.y + area.height
        }),
{
    let cols = core_columns(core_count);
    let col_width = area.width as nat / cols;
    let col = core_column(core_count, i);
    assert(col < cols);
    assert(col * col_width + col_width <= area.width as nat) by (nonlinear_arith)
        requires
            col < cols,
            cols > 0,
            col_width == area.width as nat / cols,
    {
        assert(col * col_width + col_width == (col + 1) * col_width);
        assert((col + 1) * col_width <= cols * col_width);
        assert(cols * col_width <= area.width as nat);
    }
}

/// Places the per-core bars of a CPU with `core_count` cores in the grid
/// `area`, for the first `n_cores` cores, stopping at the first core whose
/// row does not fit.
pub fn core_cells(area: Rect, core_count: usize, n_cores: usize) -> (cells: Vec<CoreCell>)
    requires
        fits(area),
    ensures
        shown_cores(area, core_count as nat, n_cores as nat, cells.len() as nat),
        forall|i: int| 0 <= i < cells.len() ==> cells[i] == core_cell(area, core_count as nat, i as nat),
{
    let mut cells: Vec<CoreCell> = Vec::new();
    if area.height == 0 || area.width == 0 {
        return cells;
    }
    let cols = per_core_columns(core_count);
    let col_width = area.width / cols;
    let label_width: u16 = if core_count >= 100 { 4 } else { 3 };
    let mut i: usize = 0;
    while i < n_cores
        invariant
            fits(area),
            area.height > 0,
            cols == core_columns(core_count as nat),
            col_width == area.width as nat / cols as nat,
            label_width == (if core_count >= 100 { 4nat } else { 3nat }),
            i <= n_cores,
            cells.len() == i,
            forall|j: nat| j < i ==> #[trigger] core_row(core_count as nat, j) < area.height,
            forall|j: int| 0 <= j < i ==> cells[j] == core_cell(area, core_count as nat, j as nat),
        ensures
            i <= n_cores,
            cells.len() == i,
            forall|j: nat| j < i ==> #[trigger] core_row(core_count as nat, j) < area.height,
            forall|j: int| 0 <= j < i ==> cells[j] == core_cell(area, core_count as nat, j as nat),
            i == n_cores || core_row(core_count as nat, i as nat) >= area.height,
        decreases n_cores - i,
    {
        let idx: u16 = (i % 65536) as u16;
        let col = idx % cols;
        let row = idx / cols;
        if row >= area.height {
            break;
        }
        proof {
            lemma_core_cell_fits(area, core_count as nat, i as nat);
        }
        assert(col * col_width + col_width <= area.width) by (nonlinear_arith)
            requires
                col * col_width + col_width <= area.width,
        ;
        let x = area.x + col * col_width;
        let w = col_width.saturating_sub(1);
        let gauge_w = w.saturating_sub(label_width + 5);
        let gauge = if gauge_w > 0 {
            Some(new_rect(x + label_width, area.y + row, gauge_w, 1))
        } else {
            None
        };
        let cell = CoreCell { x, y: area.y + row, label_width, gauge };
        assert(cell == core_cell(area, core_count as nat, i as nat));
        cells.push(cell);
        i += 1;
    }
    cells
}


/// Every core that gets a bar gets it inside the grid: its row lies within
/// the area, and its label and gauge end within the area's width.
pub proof fn lemma_core_cell_inside(area: Rect, core_count: nat, i: nat)
    requires
        fits(area),
        core_row(core_count, i) < area.height,
    ensures
        ({
            let c = core_cell(area, core_count, i);
            &&& area.x <= c.x
            &&& area.y <= c.y < area.y + area.height
            &&& c.gauge matches Some(g) ==> {
                &&& g.x == c.x + c.label_width
                &&& g.y == c.y
                &&& g.height == 1
                &&& g.x + g.width <= area.x + area.width
            }
        }),
{
    lemma_core_cell_fits(area, core_count, i);
}


/// The usage gauge of the CPU panel's bar area, and the line below it for
/// the breakdown of usage when the area has a second row (positions
/// saturate at the end of the coordinate space).
pub fn cpu_bar_layout(bar: Rect) -> (r: (Rect, Option<Rect>))
    ensures
        r.0 == gauge_row(bar),
        r.1 == (if bar.height > 1 {
            Some(clamped_rect(bar.x, sat_add(bar.y as nat, 1) as u16, bar.width, 1))
        } else {
            None
        }),
{
    let gauge = gauge_rect(bar);
    if bar.height > 1 {
        (gauge, Some(new_rect(bar.x, bar.y.saturating_add(1), bar.width, 1)))
    } else {
        (gauge, None)
    }
}

/// The task counts of the CPU panel's info line: `tasks 3/412`.
pub fn tasks_label(running: u64, total: u64) -> (label: String)
    ensures
        label@ == "tasks "@ + decimal(running as nat) + seq!['/'] + decimal(total as nat),
{
    let mut l = String::new();
    l.append("tasks ");
    push_decimal(&mut l, running as u128);
    push_char(&mut l, '/');
    push_decimal(&mut l, total as u128);
    assert(l@ =~= "tasks "@ + decimal(running as nat) + seq!['/'] + decimal(total as nat));
    l
}


/// The number of columns grows with the core count: 2 columns up to 16
/// cores, 4 up to 64, 8 beyond.
pub proof fn lemma_core_columns(core_count: nat)
    ensures
        core_count <= 16 ==> core_columns(core_count) == 2,
        16 < core_count <= 64 ==> core_columns(core_count) == 4,
        64 < core_count ==> core_columns(core_count) == 8,
{
}

/// The per-core grid has exactly the rows its cores need: enough rows for
/// every core (each core's row lies inside the grid), and no row more than
/// that (one row fewer would leave a core out).
pub proof fn lemma_core_rows_fit(core_count: nat)
    ensures
        ({
            let n = core_count % 65536;
            let cols = core_columns(core_count);
            let rows = core_rows(core_count);
            &&& rows * cols >= n
            &&& rows > 0 ==> (rows - 1) * cols < n
            &&& forall|i: nat| i < n ==> #[trigger] core_row(core_count, i) < rows
        }),
{
    let n = core_count % 65536;
    let cols = core_columns(core_count);
    let rows = core_rows(core_count);
    assert(rows * cols >= n && (rows > 0 ==> (rows - 1) * cols < n)) by (nonlinear_arith)
        requires
            cols >= 1,
            rows == ((n + cols - 1) as nat) / cols,
    ;
    assert forall|i: nat| i < n implies #[trigger] core_row(core_count, i) < rows by {
        assert(i % 65536 == i);
        assert(i / cols < rows) by (nonlinear_arith)
            requires
                i < n,
                n <= rows * cols,
                cols >= 1,
        ;
    }
}

/// Every core gets its bar when the grid is as tall as the grid's rows: a
/// non-empty grid area of at least `core_rows` rows shows all the cores it
/// is given (up to the core count).
pub proof fn lemma_all_cores_shown(area: Rect, core_count: nat, n_cores: nat, shown: nat)
    requires
        !is_empty_area(area),
        area.height >= core_rows(core_count),
        n_cores <= core_count % 65536,
        shown_cores(area, core_count, n_cores, shown),
    ensures
        shown == n_cores,
{
    lemma_core_rows_fit(core_count);
    if shown < n_cores {
        assert(core_row(core_count, shown) < core_rows(core_count));
    }
}

} // verus!
