use vstd::prelude::*;

use crate::layout::{min, sat_add, split_vertical, vertical_split, Constraint, Rect};
use crate::state::AppState;
use crate::text::{decimal, push_char, push_decimal};
use crate::theme::{Color, Theme};

verus! {

/// How many devices the disk and network panels list when the command line
/// names no limit.
pub const DEFAULT_VISIBLE_DEVICES: usize = 3;

/// The most devices a panel may be asked to list.
pub const MAX_VISIBLE_DEVICES: usize = 20;

/// The number of devices a panel lists for the `--net-max` option: 3 by
/// default, and always between 1 and 20.
pub open spec fn visible_limit(net_max: Option<usize>) -> nat {
    let n = match net_max {
        Some(n) => n as nat,
        None => DEFAULT_VISIBLE_DEVICES as nat,
    };
    if n < 1 {
        1
    } else if n > MAX_VISIBLE_DEVICES {
        MAX_VISIBLE_DEVICES as nat
    } else {
        n
    }
}

/// The number of devices the disk and network panels list.
pub fn visible_device_limit(net_max: Option<usize>) -> (n: usize)
    ensures
        n == visible_limit(net_max),
        1 <= n <= MAX_VISIBLE_DEVICES,
{
    let n = match net_max {
        Some(n) => n,
        None => DEFAULT_VISIBLE_DEVICES,
    };
    if n < 1 {
        1
    } else if n > MAX_VISIBLE_DEVICES {
        MAX_VISIBLE_DEVICES
    } else {
        n
    }
}

/// The rows of a device table: one per listed device, at most
/// `max_visible`, and at most the largest 16-bit row count.
pub open spec fn table_rows(count: nat, max_visible: nat) -> nat {
    min(min(count, max_visible), u16::MAX as nat)
}

/// Whether a device panel has room for the chart: the header and rows of
/// the table, the statistics line and two rows of chart.
pub open spec fn chart_shown(inner_height: nat, rows: nat) -> bool {
    inner_height > 1 + rows + 1 + 2
}

/// Whether a device panel has room for the statistics line below the table.
pub open spec fn stats_shown(inner_height: nat, rows: nat) -> bool {
    inner_height > 1 + rows + 1
}

/// How a device panel is split: the table (header and rows, the height
/// saturating at the largest 16-bit value), then the chart if it fits, then
/// the statistics line if it fits.
pub open spec fn device_panel_constraints(inner_height: nat, rows: nat) -> Seq<Constraint> {
    seq![Constraint::Length(sat_add(1, rows) as u16)] + (if chart_shown(inner_height, rows) {
        seq![Constraint::Fill(1)]
    } else {
        Seq::empty()
    }) + (if stats_shown(inner_height, rows) {
        seq![Constraint::Length(1)]
    } else {
        Seq::empty()
    })
}

/// The sections of a disk or network panel.
#[derive(Clone, Copy, Debug, PartialEq, Eq, Structural)]
pub struct DevicePanelAreas {
    /// The device table.
    pub table: Rect,
    /// The throughput chart of the selected device, when there is room.
    pub chart: Option<Rect>,
    /// The time-window statistics of the selected device, when there is room.
    pub stats: Option<Rect>,
}

/// The sections of a panel split into `areas`: the table first, then the
/// chart and the statistics line, each where it was asked for.
pub open spec fn panel_sections(areas: Seq<Rect>, show_chart: bool, show_stats: bool) -> DevicePanelAreas {
    DevicePanelAreas {
        table: areas[0],
        chart: if show_chart {
            Some(areas[1])
        } else {
            None
        },
        stats: if show_stats {
            Some(
                if show_chart {
                    areas[2]
                } else {
                    areas[1]
                },
            )
        } else {
            None
        },
    }
}

/// Names the sections of a device panel from the areas it was split into.
pub fn device_panel_sections(areas: &Vec<Rect>, show_chart: bool, show_stats: bool) -> (r: DevicePanelAreas)
    requires
        areas.len() == 1 + (if show_chart { 1nat } else { 0 }) + (if show_stats { 1nat } else { 0 }),
    ensures
        r == panel_sections(areas@, show_chart, show_stats),
{
    let table = areas[0];
    if show_chart && show_stats {
        DevicePanelAreas { table, chart: Some(areas[1]), stats: Some(areas[2]) }
    } else if show_chart {
        DevicePanelAreas { table, chart: Some(areas[1]), stats: None }
    } else if show_stats {
        DevicePanelAreas { table, chart: None, stats: Some(areas[1]) }
    } else {
        DevicePanelAreas { table, chart: None, stats: None }
    }
}

/// Lays out the inside of a disk or network panel that lists
/// `device_count` devices, at most `max_visible` of them.
pub fn device_panel_layout(inner: Rect, device_count: usize, max_visible: usize) -> (r: DevicePanelAreas)
    ensures
        ({
            let rows = table_rows(device_count as nat, max_visible as nat);
            r == panel_sections(
                vertical_split(inner, device_panel_constraints(inner.height as nat, rows)),
                chart_shown(inner.height as nat, rows),
                stats_shown(inner.height as nat, rows),
            )
        }),
        r.table.x == inner.x && r.table.width == inner.width,
        r.chart matches Some(c) ==> c.x == inner.x && c.width == inner.width,
        r.stats matches Some(c) ==> c.x == inner.x && c.width == inner.width,
{
    let listed = if device_count < max_visible { device_count } else { max_visible };
    let rows: u16 = if listed > 65535 { 65535 } else { listed as u16 };
    let inner_h = inner.height as u32;
    let show_chart = inner_h > 1 + rows as u32 + 1 + 2;
    let show_stats = inner_h > 1 + rows as u32 + 1;
    let mut constraints = vec![Constraint::Length(rows.saturating_add(1))];
    if show_chart {
        constraints.push(Constraint::Fill(1));
    }
    if show_stats {
        constraints.push(Constraint::Length(1));
    }
    assert(constraints@ =~= device_panel_constraints(inner.height as nat, rows as nat));
    let areas = split_vertical(inner, &constraints);
    let r = device_panel_sections(&areas, show_chart, show_stats);
    assert(areas@[0].x == inner.x && areas@[0].width == inner.width);
    proof {
        if show_chart {
            assert(areas@[1].x == inner.x && areas@[1].width == inner.width);
        }
        if show_stats {
            assert(areas@[(areas.len() - 1) as int].x == inner.x);
        }
    }
    r
}

/// Whether a chart area is large enough to draw the chart in.
pub fn chart_fits(area: Rect) -> (fits: bool)
    ensures
        fits == (area.height > 0 && area.width > 4),
{
    area.height > 0 && area.width > 4
}

/// The extent of a two-line chart's time axis: the longer of the two
/// series, and at least 1.
pub fn chart_x_extent(len_a: usize, len_b: usize) -> (extent: usize)
    ensures
        extent >= 1,
        extent >= len_a,
        extent >= len_b,
        extent == len_a || extent == len_b || extent == 1,
{
    let longer = if len_a > len_b { len_a } else { len_b };
    if longer > 1 { longer } else { 1 }
}

/// The name of the device at `index`, or a dash when there is none.
pub open spec fn selected_name(names: Seq<String>, index: nat) -> Seq<char> {
    if index < names.len() {
        names[index as int]@
    } else {
        seq!['\u{2014}']
    }
}

fn push_selected_name(t: &mut String, names: &Vec<String>, index: usize)
    ensures
        final(t)@ == old(t)@ + selected_name(names@, index as nat),
{
    if index < names.len() {
        t.append(names[index].as_str());
    } else {
        push_char(t, '\u{2014}');
    }
}

/// The title of the disk panel, naming the selected disk: `Disk I/O [sda]
/// (d/D)`.
pub fn disk_panel_title<D, N>(state: &AppState<D, N>) -> (title: String)
    ensures
        title@ == "Disk I/O ["@ + selected_name(state.disk_names@, state.selected_disk_index as nat)
            + "] (d/D)"@,
{
    let mut t = String::new();
    t.append("Disk I/O [");
    push_selected_name(&mut t, &state.disk_names, state.selected_disk_index);
    t.append("] (d/D)");
    assert(t@ =~= "Disk I/O ["@ + selected_name(state.disk_names@, state.selected_disk_index as nat)
        + "] (d/D)"@);
    t
}

/// The title of the network panel, naming the selected interface:
/// `Network [eth0] (n/N)`.
pub fn network_panel_title<D, N>(state: &AppState<D, N>) -> (title: String)
    ensures
        title@ == "Network ["@ + selected_name(state.network_names@, state.selected_network_index as nat)
            + "] (n/N)"@,
{
    let mut t = String::new();
    t.append("Network [");
    push_selected_name(&mut t, &state.network_names, state.selected_network_index);
    t.append("] (n/N)");
    assert(t@ =~= "Network ["@ + selected_name(state.network_names@, state.selected_network_index as nat)
        + "] (n/N)"@);
    t
}

/// The background of row `row` of a device table: the highlight for the
/// selected device, the alternate shade on odd rows, none otherwise.
pub open spec fn row_background(theme: Theme, row: nat, selected: nat) -> Option<Color> {
    if row == selected {
        Some(theme.highlight_bg)
    } else if row % 2 == 1 {
        Some(theme.row_alt_bg)
    } else {
        None
    }
}

/// The background of a row of the disk or network table.
pub fn device_row_background(theme: &Theme, row: usize, selected: usize) -> (bg: Option<Color>)
    ensures
        bg == row_background(*theme, row as nat, selected as nat),
{
    if row == selected {
        Some(theme.highlight_bg)
    } else if row % 2 == 1 {
        Some(theme.row_alt_bg)
    } else {
        None
    }
}

/// The colour of a disk's name in the table: the primary colour when it is
/// selected, the secondary one otherwise.
pub fn disk_name_color(theme: &Theme, is_selected: bool) -> (c: Color)
    ensures
        c == (if is_selected {
            theme.primary
        } else {
            theme.secondary
        }),
{
    if is_selected {
        theme.primary
    } else {
        theme.secondary
    }
}

/// The colour of an interface's name in the table: the primary colour when
/// it is selected, the text colour otherwise.
pub fn network_name_color(theme: &Theme, is_selected: bool) -> (c: Color)
    ensures
        c == (if is_selected {
            theme.primary
        } else {
            theme.text
        }),
{
    if is_selected {
        theme.primary
    } else {
        theme.text
    }
}

/// The link status mark before an interface's name, followed by a space: a
/// filled dot in the success colour when the link is up, a hollow dot in
/// the muted colour when it is down.
pub fn link_status(theme: &Theme, is_up: bool) -> (r: (String, Color))
    ensures
        r.0@ == (if is_up {
            seq!['\u{25cf}', ' ']
        } else {
            seq!['\u{25cb}', ' ']
        }),
        r.1 == (if is_up {
            theme.success
        } else {
            theme.text_muted
        }),
{
    let mut s = String::new();
    if is_up {
        push_char(&mut s, '\u{25cf}');
    } else {
        push_char(&mut s, '\u{25cb}');
    }
    push_char(&mut s, ' ');
    assert(s@ =~= (if is_up {
        seq!['\u{25cf}', ' ']
    } else {
        seq!['\u{25cb}', ' ']
    }));
    (s, if is_up { theme.success } else { theme.text_muted })
}

/// The errors cell of an interface: the receive and transmit errors added
/// up, saturating at the largest 64-bit count, in the danger colour when
/// there are any.
pub fn error_cell(theme: &Theme, rx_errors: u64, tx_errors: u64) -> (r: (String, Color))
    ensures
        r.0@ == decimal(min((rx_errors + tx_errors) as nat, u64::MAX as nat)),
        r.1 == (if rx_errors + tx_errors > 0 {
            theme.danger
        } else {
            theme.text_dim
        }),
{
    let total = rx_errors.saturating_add(tx_errors);
    let mut s = String::new();
    push_decimal(&mut s, total as u128);
    assert(s@ =~= decimal(total as nat));
    (s, if total > 0 { theme.danger } else { theme.text_dim })
}


/// A device panel never shows the chart without the statistics line, and
/// whatever it shows fits: the table, the statistics line and two rows of
/// chart when the chart is shown, the table and the statistics line when
/// only they are.
pub proof fn lemma_device_panel_sections(inner_height: nat, rows: nat)
    ensures
        chart_shown(inner_height, rows) ==> stats_shown(inner_height, rows),
        chart_shown(inner_height, rows) ==> 1 + rows + 2 + 1 <= inner_height,
        stats_shown(inner_height, rows) ==> 1 + rows + 1 <= inner_height,
        device_panel_constraints(inner_height, rows).len() == 1 + (if chart_shown(
            inner_height,
            rows,
        ) {
            1nat
        } else {
            0
        }) + (if stats_shown(inner_height, rows) {
            1nat
        } else {
            0
        }),
{
}


/// The device table has one row per listed device: as many rows as
/// devices, unless the limit (or the largest 16-bit row count) is smaller.
pub proof fn lemma_table_rows(count: nat, max_visible: nat)
    ensures
        ({
            let rows = table_rows(count, max_visible);
            &&& rows <= count
            &&& rows <= max_visible
            &&& rows <= u16::MAX
            &&& rows == count || rows == max_visible || rows == u16::MAX
        }),
        count <= max_visible && count <= u16::MAX ==> table_rows(count, max_visible) == count,
{
}

/// How a device panel with `inner_height` rows and `rows` device rows is
/// split: the table is its header plus one line per device row (at most the
/// largest 16-bit height); with at least 5 rows beyond the device rows the
/// chart and the statistics line follow; with 3 or 4 only the statistics
/// line; with fewer, the table alone.
pub proof fn lemma_device_panel_split(inner_height: nat, rows: nat)
    ensures
        ({
            let c = device_panel_constraints(inner_height, rows);
            &&& c[0] == Constraint::Length(
                (if rows < u16::MAX {
                    rows + 1
                } else {
                    u16::MAX as nat
                }) as u16,
            )
            &&& inner_height >= rows + 5 ==> c.len() == 3 && c[1] == Constraint::Fill(1) && c[2]
                == Constraint::Length(1)
            &&& rows + 3 <= inner_height < rows + 5 ==> c.len() == 2 && c[1] == Constraint::Length(1)
            &&& inner_height < rows + 3 ==> c.len() == 1
        }),
{
}

} // verus!
