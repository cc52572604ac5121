use vstd::prelude::*;

use crate::cpu::{compute_cpu_mem_want, cpu_mem_want};
use crate::layout::{
    horizontal_split, max, min, sat_sub, split_horizontal, split_vertical, vertical_split,
    Constraint, Rect,
};
use crate::state::AppState;

verus! {

/// Rows the CPU and memory panels need at the least.
pub const CPU_MEM_MIN: u16 = 7;

/// Rows the disk and network panels need at the least.
pub const IO_MIN: u16 = 6;

/// Rows the disk and network panels ask for.
pub const IO_WANT: u16 = 12;

/// Rows the process table needs at the least.
pub const PROCESS_MIN: u16 = 4;

/// Rows of the GPU panel cap.
pub const GPU_PANEL_MAX: u16 = 14;

/// Heights of the bands of the overview, from top to bottom; the process
/// table takes what is left below them.
#[derive(Clone, Copy, Debug, PartialEq, Eq, Structural)]
pub struct OverviewHeights {
    pub cpu_memory: u16,
    pub gpu: u16,
    pub io: u16,
}

/// The height of the GPU panel: three rows per GPU plus its border, at most
/// 14, or nothing without GPUs.
pub open spec fn gpu_panel_height(gpu_count: nat) -> nat {
    if gpu_count == 0 {
        0
    } else {
        min(gpu_count * 3 + 2, GPU_PANEL_MAX as nat)
    }
}

/// Rows for the CPU and memory panels out of `flexible`, the rows that the
/// GPU panel and the process table's minimum leave, when they ask for
/// `want`. With room for both wishes the panels get theirs; with room for
/// both minimums the rows above the minimums are shared in proportion to
/// how far each wish goes above its minimum (disk and network wish for 6
/// more); otherwise the CPU and memory panels keep their minimum.
pub open spec fn cpu_memory_height(flexible: nat, want: nat) -> nat {
    if flexible >= want + IO_WANT {
        want
    } else if flexible >= CPU_MEM_MIN + IO_MIN {
        let extra = (flexible - (CPU_MEM_MIN + IO_MIN)) as nat;
        let cpu_extra_max = sat_sub(want, CPU_MEM_MIN as nat);
        let io_extra_max = (IO_WANT - IO_MIN) as nat;
        let cpu_extra = extra * cpu_extra_max / (cpu_extra_max + io_extra_max);
        CPU_MEM_MIN as nat + min(cpu_extra, cpu_extra_max)
    } else {
        max(sat_sub(flexible, IO_MIN as nat), CPU_MEM_MIN as nat)
    }
}

/// The heights of the overview's bands for a terminal `height` rows tall,
/// `gpu_count` GPUs and a CPU and memory panel that asks for `cpu_mem_want`
/// rows. The disk and network band gets what the CPU and memory panels
/// leave, at most 12 rows.
pub open spec fn overview_heights_spec(height: nat, gpu_count: nat, cpu_mem_want: nat) -> OverviewHeights {
    let gpu = gpu_panel_height(gpu_count);
    let flexible = sat_sub(height, gpu + PROCESS_MIN as nat);
    let cpu = cpu_memory_height(flexible, cpu_mem_want);
    OverviewHeights {
        cpu_memory: cpu as u16,
        gpu: gpu as u16,
        io: min(sat_sub(flexible, cpu), IO_WANT as nat) as u16,
    }
}

/// Distributes the overview's rows between its bands.
pub fn overview_heights(height: u16, gpu_count: usize, cpu_mem_want: u16) -> (r: OverviewHeights)
    ensures
        r == overview_heights_spec(height as nat, gpu_count as nat, cpu_mem_want as nat),
{
    let gpu_want: u16 = if gpu_count == 0 {
        0
    } else if gpu_count >= 4 {
        GPU_PANEL_MAX
    } else {
        let g: u16 = gpu_count as u16;
        g * 3 + 2
    };
    let fixed = gpu_want + PROCESS_MIN;
    let flexible = height.saturating_sub(fixed);
    let cpu_mem_h: u16 = if flexible as u32 >= cpu_mem_want as u32 + IO_WANT as u32 {
        cpu_mem_want
    } else if flexible >= CPU_MEM_MIN + IO_MIN {
        let extra = flexible.saturating_sub(CPU_MEM_MIN + IO_MIN);
        let cpu_extra_max = cpu_mem_want.saturating_sub(CPU_MEM_MIN);
        let io_extra_max = IO_WANT.saturating_sub(IO_MIN);
        let total_extra_want = cpu_extra_max + io_extra_max;
        assert((extra as int) * (cpu_extra_max as int) <= 65535 * 65535) by (nonlinear_arith)
            requires
                extra <= 65535,
                cpu_extra_max <= 65535,
        ;
        assert((extra as int) * (cpu_extra_max as int) / (total_extra_want as int) <= extra as int)
            by (nonlinear_arith)
            requires
                cpu_extra_max < total_extra_want,
                extra >= 0,
                cpu_extra_max >= 0,
        {
            assert((extra as int) * (cpu_extra_max as int) <= (extra as int) * (total_extra_want as int));
        }
        let cpu_extra: u16 = (extra as u32 * cpu_extra_max as u32 / total_extra_want as u32) as u16;
        let capped = if cpu_extra < cpu_extra_max { cpu_extra } else { cpu_extra_max };
        CPU_MEM_MIN + capped
    } else {
        let rest = flexible.saturating_sub(IO_MIN);
        if rest > CPU_MEM_MIN { rest } else { CPU_MEM_MIN }
    };
    let room = flexible.saturating_sub(cpu_mem_h);
    let capped_room = if room < IO_WANT { room } else { IO_WANT };
    let floor_room = if IO_MIN < room { IO_MIN } else { room };
    let io_h = if capped_room > floor_room { capped_room } else { floor_room };
    OverviewHeights { cpu_memory: cpu_mem_h, gpu: gpu_want, io: io_h }
}


/// The areas of the overview, from top to bottom.
#[derive(Clone, Copy, Debug, PartialEq, Eq, Structural)]
pub struct OverviewAreas {
    /// The CPU and memory panels, side by side.
    pub cpu_memory: Rect,
    /// The GPU panel.
    pub gpu: Rect,
    /// The disk and network panels, side by side.
    pub io: Rect,
    /// The process table.
    pub processes: Rect,
}

/// How the overview is split: the CPU and memory band, the GPU panel, and
/// the rest, which is split again into the disk and network band and the
/// process table.
pub open spec fn overview_areas(area: Rect, h: OverviewHeights) -> OverviewAreas {
    let top = vertical_split(
        area,
        seq![Constraint::Length(h.cpu_memory), Constraint::Length(h.gpu), Constraint::Fill(1)],
    );
    let bottom = vertical_split(top[2], seq![Constraint::Length(h.io), Constraint::Fill(1)]);
    OverviewAreas { cpu_memory: top[0], gpu: top[1], io: bottom[0], processes: bottom[1] }
}

/// Lays out the main overview dashboard in `area`.
pub fn overview_layout<D, N>(area: Rect, state: &AppState<D, N>) -> (a: OverviewAreas)
    ensures
        a == overview_areas(
            area,
            overview_heights_spec(
                area.height as nat,
                state.gpu_count as nat,
                cpu_mem_want(state.show_per_core, state.cpu_core_count),
            ),
        ),
{
    let want = compute_cpu_mem_want(state);
    let h = overview_heights(area.height, state.gpu_count, want);
    let top_constraints = vec![
        Constraint::Length(h.cpu_memory),
        Constraint::Length(h.gpu),
        Constraint::Fill(1),
    ];
    let top = split_vertical(area, &top_constraints);
    assert(top_constraints@ =~= seq![
        Constraint::Length(h.cpu_memory),
        Constraint::Length(h.gpu),
        Constraint::Fill(1),
    ]);
    let bottom_constraints = vec![Constraint::Length(h.io), Constraint::Fill(1)];
    let bottom = split_vertical(top[2], &bottom_constraints);
    assert(bottom_constraints@ =~= seq![Constraint::Length(h.io), Constraint::Fill(1)]);
    OverviewAreas { cpu_memory: top[0], gpu: top[1], io: bottom[0], processes: bottom[1] }
}

/// Splits a band between two panels side by side, giving the left one
/// `left_percent` and the right one the rest of a hundred.
pub open spec fn side_by_side(area: Rect, left_percent: u16) -> (Rect, Rect) {
    let s = horizontal_split(
        area,
        seq![Constraint::Percentage(left_percent), Constraint::Percentage((100 - left_percent) as u16)],
    );
    (s[0], s[1])
}

fn split_side_by_side(area: Rect, left_percent: u16) -> (r: (Rect, Rect))
    requires
        left_percent <= 100,
    ensures
        r == side_by_side(area, left_percent),
{
    let right_percent = 100 - left_percent;
    let constraints = vec![Constraint::Percentage(left_percent), Constraint::Percentage(right_percent)];
    assert(constraints@ =~= seq![
        Constraint::Percentage(left_percent),
        Constraint::Percentage((100 - left_percent) as u16),
    ]);
    let s = split_horizontal(area, &constraints);
    (s[0], s[1])
}

/// The CPU panel (58%) and the memory panel (42%) of the top band.
pub fn cpu_memory_row_layout(area: Rect) -> (r: (Rect, Rect))
    ensures
        r == side_by_side(area, 58),
{
    split_side_by_side(area, 58)
}

/// The disk panel and the network panel, half of the band each.
pub fn io_row_layout(area: Rect) -> (r: (Rect, Rect))
    ensures
        r == side_by_side(area, 50),
{
    split_side_by_side(area, 50)
}

/// Bounds that hold of every distribution of the overview's rows when the
/// CPU and memory panels ask for at least their minimum: the GPU panel
/// takes at most 14 rows, the CPU and memory panels at least their minimum
/// of 7 and at most what they ask for, and the disk and network band at
/// most 12.
pub proof fn lemma_overview_heights_bounds(height: nat, gpu_count: nat, cpu_mem_want: nat)
    requires
        height <= u16::MAX,
        CPU_MEM_MIN <= cpu_mem_want <= u16::MAX,
    ensures
        ({
            let r = overview_heights_spec(height, gpu_count, cpu_mem_want);
            &&& r.gpu <= GPU_PANEL_MAX
            &&& CPU_MEM_MIN <= r.cpu_memory <= cpu_mem_want
            &&& r.io <= IO_WANT
        }),
{
    let gpu = gpu_panel_height(gpu_count);
    let flexible = sat_sub(height, gpu + PROCESS_MIN as nat);
    lemma_cpu_memory_height_range(flexible, cpu_mem_want);
    let cpu = cpu_memory_height(flexible, cpu_mem_want);
}

/// The CPU and memory panels' rows lie between their minimum and the larger
/// of their wish and that minimum; once both minimums fit, they leave the
/// disk and network band at least its minimum.
proof fn lemma_cpu_memory_height_range(flexible: nat, want: nat)
    requires
        flexible <= u16::MAX,
        want >= CPU_MEM_MIN,
    ensures
        CPU_MEM_MIN <= cpu_memory_height(flexible, want) <= want,
        flexible >= CPU_MEM_MIN + IO_MIN ==> cpu_memory_height(flexible, want) + IO_MIN <= flexible,
        flexible >= want + IO_WANT ==> cpu_memory_height(flexible, want) == want,
{
    if flexible < want + IO_WANT && flexible >= CPU_MEM_MIN + IO_MIN {
        let extra = (flexible - (CPU_MEM_MIN + IO_MIN)) as nat;
        let cpu_extra_max = sat_sub(want, CPU_MEM_MIN as nat);
        let total = cpu_extra_max + 6;
        assert(extra * cpu_extra_max / total <= extra) by (nonlinear_arith)
            requires
                total == cpu_extra_max + 6,
        {
            assert(extra * cpu_extra_max <= extra * total);
        }
    }
}

/// When the terminal has room for both minimums (13 rows besides the GPU
/// panel and the process table's 4), and the CPU and memory panels ask for
/// at least their minimum, every band gets at least its minimum
/// and the bands never take more rows than the terminal has: the process
/// table keeps at least its 4 rows.
pub proof fn lemma_overview_heights_fit(height: nat, gpu_count: nat, cpu_mem_want: nat)
    requires
        height <= u16::MAX,
        CPU_MEM_MIN <= cpu_mem_want <= u16::MAX,
        height >= gpu_panel_height(gpu_count) + PROCESS_MIN + CPU_MEM_MIN + IO_MIN,
    ensures
        ({
            let r = overview_heights_spec(height, gpu_count, cpu_mem_want);
            &&& r.cpu_memory >= CPU_MEM_MIN
            &&& r.io >= IO_MIN
            &&& r.gpu + r.cpu_memory + r.io + PROCESS_MIN <= height
        }),
{
    let gpu = gpu_panel_height(gpu_count);
    let flexible = sat_sub(height, gpu + PROCESS_MIN as nat);
    lemma_cpu_memory_height_range(flexible, cpu_mem_want);
    let cpu = cpu_memory_height(flexible, cpu_mem_want);
    assert(gpu + PROCESS_MIN + flexible == height);
    assert(cpu + IO_MIN <= flexible);
}

/// When the terminal has room for what every band asks for, the CPU and
/// memory panels get exactly their wish and the disk and network band its
/// 12 rows.
pub proof fn lemma_overview_heights_roomy(height: nat, gpu_count: nat, cpu_mem_want: nat)
    requires
        height <= u16::MAX,
        height >= gpu_panel_height(gpu_count) + PROCESS_MIN + cpu_mem_want + IO_WANT,
    ensures
        overview_heights_spec(height, gpu_count, cpu_mem_want).cpu_memory == cpu_mem_want as u16,
        overview_heights_spec(height, gpu_count, cpu_mem_want).io == IO_WANT,
{
}


/// How the overview's rows are shared, in every case. Let `flexible` be the
/// rows left below the GPU panel and the process table's 4.
/// - The GPU panel takes three rows per GPU and two for its border, at most
///   14, and nothing without GPUs.
/// - The disk and network band always gets what the CPU and memory band
///   leaves of `flexible`, at most 12 rows.
/// - Without room for both minimums (`flexible` under 13), the CPU and
///   memory band keeps exactly its minimum of 7, whatever it asks for.
/// - With room for both minimums but not for both wishes, the CPU and
///   memory band gets its minimum plus its share of the rows above the two
///   minimums: `(flexible - 13) * (want - 7) / (want - 1)` rounded down,
///   `want - 7` and `6` being how far each band's wish goes above its
///   minimum.
/// - With room for both wishes, each band gets its wish.
pub proof fn lemma_overview_heights_shares(height: nat, gpu_count: nat, want: nat)
    requires
        height <= u16::MAX,
        CPU_MEM_MIN <= want <= u16::MAX,
    ensures
        ({
            let r = overview_heights_spec(height, gpu_count, want);
            let flexible: nat = if height >= r.gpu + 4 {
                (height - r.gpu - 4) as nat
            } else {
                0
            };
            let left: nat = if flexible >= r.cpu_memory {
                (flexible - r.cpu_memory) as nat
            } else {
                0
            };
            &&& r.gpu == (if gpu_count == 0 {
                0
            } else if gpu_count * 3 + 2 <= 14 {
                gpu_count * 3 + 2
            } else {
                14
            })
            &&& r.io == (if left <= 12 {
                left
            } else {
                12
            })
            &&& flexible < 13 ==> r.cpu_memory == 7
            &&& 13 <= flexible < want + 12 ==> {
                let share = (r.cpu_memory - 7) as int;
                &&& r.cpu_memory >= 7
                &&& share * (want - 1) <= (flexible - 13) * (want - 7)
                &&& (flexible - 13) * (want - 7) < (share + 1) * (want - 1)
            }
            &&& flexible >= want + 12 ==> r.cpu_memory == want && r.io == 12
        }),
{
    let gpu = gpu_panel_height(gpu_count);
    let flexible = sat_sub(height, gpu + PROCESS_MIN as nat);
    lemma_cpu_memory_height_range(flexible, want);
    let cpu = cpu_memory_height(flexible, want);
    if 13 <= flexible < want + 12 {
        let e = (flexible - 13) as nat;
        let m = (want - 7) as nat;
        let q = e * m / (m + 6);
        assert(q * (m + 6) <= e * m < (q + 1) * (m + 6)) by (nonlinear_arith)
            requires
                q == e * m / (m + 6),
        ;
        assert(q <= m) by (nonlinear_arith)
            requires
                q * (m + 6) <= e * m,
                e < m + 6,
        {
            if q > m {
                assert(q * (m + 6) >= (m + 1) * (m + 6));
                assert(e * m <= (m + 5) * m);
            }
        }
        assert(cpu == 7 + q);
    }
}

} // verus!
