use dgxtop::cpu::{
    compute_cpu_mem_want, core_cells, cpu_aggregate_layout, cpu_bar_layout, cpu_panel_title,
    cpu_per_core_layout, per_core_columns, tasks_label,
};
use dgxtop::devices::{
    chart_fits, chart_x_extent, device_panel_layout, device_panel_sections, device_row_background,
    disk_name_color, disk_panel_title, error_cell, link_status, network_name_color,
    network_panel_title, visible_device_limit,
};
use dgxtop::gpu::{
    gpu_card_layout, gpu_header_label, gpu_panel_layout, gpu_panel_title, memory_label,
    memory_metric_label, MemoryLabel,
};
use dgxtop::layout::{gauge_rect, new_rect, panel_content, panel_inner, Rect};
use dgxtop::memory::memory_panel_layout;
use dgxtop::overview::{cpu_memory_row_layout, io_row_layout, overview_heights, overview_layout};
use dgxtop::processes::{process_panel_style, process_row_style, process_table_area};
use dgxtop::state::{
    selected_disk_history, selected_network_history, AppState, DeviceHistories, InputMode,
};
use dgxtop::theme::Theme;

fn rect(x: u16, y: u16, width: u16, height: u16) -> Rect {
    Rect { x, y, width, height }
}

fn state(show_per_core: bool, cores: Option<usize>, gpus: usize) -> AppState<u32, u64> {
    AppState {
        show_per_core,
        cpu_core_count: cores,
        gpu_count: gpus,
        disk_names: vec!["nvme0n1".to_string(), "sda".to_string()],
        selected_disk_index: 1,
        disk_histories: DeviceHistories::new(),
        network_names: vec!["eth0".to_string()],
        selected_network_index: 0,
        network_histories: DeviceHistories::new(),
        network_max_visible: 3,
        input_mode: InputMode::Normal,
        process_filter: String::new(),
        process_selected_index: 0,
    }
}

#[test]
fn columns_by_core_count() {
    assert_eq!(per_core_columns(0), 2);
    assert_eq!(per_core_columns(16), 2);
    assert_eq!(per_core_columns(17), 4);
    assert_eq!(per_core_columns(64), 4);
    assert_eq!(per_core_columns(65), 8);
}

#[test]
fn cpu_memory_wish() {
    assert_eq!(compute_cpu_mem_want(&state(false, Some(128), 0)), 10);
    assert_eq!(compute_cpu_mem_want(&state(true, None, 0)), 10);
    assert_eq!(compute_cpu_mem_want(&state(true, Some(8), 0)), 10);
    // 20 cores in 4 columns: 5 rows, plus border, info and stats lines.
    assert_eq!(compute_cpu_mem_want(&state(true, Some(20), 0)), 10);
    // 144 cores in 8 columns: 18 rows.
    assert_eq!(compute_cpu_mem_want(&state(true, Some(144), 0)), 22);
}

#[test]
fn overview_heights_roomy_tight_and_cramped() {
    let r = overview_heights(50, 2, 10);
    assert_eq!((r.cpu_memory, r.gpu, r.io), (10, 8, 12));
    let r = overview_heights(20, 0, 10);
    assert_eq!((r.cpu_memory, r.gpu, r.io), (8, 0, 8));
    let r = overview_heights(10, 0, 10);
    assert_eq!((r.cpu_memory, r.gpu, r.io), (7, 0, 0));
    let r = overview_heights(60, 8, 10);
    assert_eq!(r.gpu, 14);
    let r = overview_heights(0, 1, 22);
    assert_eq!((r.cpu_memory, r.gpu, r.io), (7, 5, 0));
}

#[test]
fn overview_heights_saturate_instead_of_overflowing() {
    let r = overview_heights(40, 100_000, 10);
    assert_eq!(r.gpu, 14);
    let r = overview_heights(40, usize::MAX, 10);
    assert_eq!(r.gpu, 14);
    let r = overview_heights(u16::MAX, 0, u16::MAX);
    assert_eq!(r.io, 12);
    assert_eq!(r.cpu_memory, 65519);
    let r = overview_heights(30, 0, 3);
    assert_eq!((r.cpu_memory, r.io), (3, 12));
}

#[test]
fn overview_areas_stack_up() {
    let s = state(false, Some(8), 2);
    let a = overview_layout(rect(0, 0, 120, 50), &s);
    assert_eq!(a.cpu_memory, rect(0, 0, 120, 10));
    assert_eq!(a.gpu, rect(0, 10, 120, 8));
    assert_eq!(a.io, rect(0, 18, 120, 12));
    assert_eq!(a.processes, rect(0, 30, 120, 20));
    let (cpu, mem) = cpu_memory_row_layout(a.cpu_memory);
    assert_eq!(cpu.width + mem.width, 120);
    assert_eq!(cpu.x, 0);
    assert_eq!(mem.x, cpu.width);
    assert!(cpu.width > mem.width);
    let (disk, net) = io_row_layout(a.io);
    assert_eq!((disk.width, net.width), (60, 60));
    assert_eq!((disk.y, net.y, disk.height), (18, 18, 12));
}

#[test]
fn panel_insides() {
    assert_eq!(panel_inner(rect(2, 3, 10, 5)), rect(3, 4, 8, 3));
    assert_eq!(panel_inner(rect(0, 0, 1, 1)), rect(1, 1, 0, 0));
    assert_eq!(panel_content(rect(0, 0, 2, 9)), None);
    assert_eq!(panel_content(rect(0, 0, 3, 3)), Some(rect(1, 1, 1, 1)));
    assert_eq!(process_table_area(rect(0, 0, 10, 3)), None);
    assert_eq!(process_table_area(rect(0, 0, 10, 4)), Some(rect(1, 1, 8, 2)));
}

#[test]
fn rect_new_clamps_to_coordinate_space() {
    assert_eq!(new_rect(65530, 0, 10, 1), rect(65530, 0, 5, 1));
    assert_eq!(new_rect(1, 2, 3, 4), rect(1, 2, 3, 4));
    assert_eq!(gauge_rect(rect(4, 2, 30, 2)), rect(5, 2, 28, 1));
    assert_eq!(gauge_rect(rect(4, 2, 1, 2)), rect(5, 2, 0, 1));
    assert_eq!(gauge_rect(rect(u16::MAX, 2, 30, 1)), rect(u16::MAX, 2, 0, 1));
}

#[test]
fn cpu_panel_pieces() {
    let a = cpu_aggregate_layout(rect(1, 1, 40, 8));
    assert_eq!(a.info, rect(1, 1, 40, 1));
    assert_eq!(a.bar, rect(1, 2, 40, 2));
    assert_eq!(a.stats, rect(1, 4, 40, 1));
    assert_eq!(a.sparkline, rect(1, 5, 40, 4));
    let p = cpu_per_core_layout(rect(1, 1, 40, 10), 20);
    assert_eq!(p.info, rect(1, 1, 40, 1));
    assert_eq!(p.cores, rect(1, 2, 40, 5));
    assert_eq!(p.stats, rect(1, 7, 40, 4));
    let (gauge, breakdown) = cpu_bar_layout(rect(1, 2, 40, 2));
    assert_eq!(gauge, rect(2, 2, 38, 1));
    assert_eq!(breakdown, Some(rect(1, 3, 40, 1)));
    assert_eq!(cpu_bar_layout(rect(1, 2, 40, 1)).1, None);
    assert_eq!(cpu_bar_layout(rect(1, u16::MAX, 40, 2)).1, Some(rect(1, u16::MAX, 40, 0)));
    assert_eq!(cpu_panel_title(true, 16), "CPU (16 cores)");
    assert_eq!(cpu_panel_title(false, 16), "CPU");
    assert_eq!(tasks_label(3, 412), "tasks 3/412");
}

#[test]
fn per_core_grid() {
    let cells = core_cells(rect(0, 5, 40, 4), 8, 8);
    assert_eq!(cells.len(), 8);
    for (i, c) in cells.iter().enumerate() {
        let col = (i % 2) as u16;
        let row = (i / 2) as u16;
        assert_eq!(c.x, col * 20);
        assert_eq!(c.y, 5 + row);
        assert_eq!(c.label_width, 3);
        assert_eq!(c.gauge, Some(rect(col * 20 + 3, 5 + row, 11, 1)));
    }
    // Only two rows fit: the cores below them get no bar.
    assert_eq!(core_cells(rect(0, 0, 40, 2), 8, 8).len(), 4);
    // Narrow columns leave no room for a gauge.
    let narrow = core_cells(rect(0, 0, 16, 1), 4, 4);
    assert_eq!(narrow.len(), 2);
    assert_eq!(narrow[1].gauge, None);
    // From 100 cores up the labels are four wide.
    assert_eq!(core_cells(rect(0, 0, 200, 20), 128, 1)[0].label_width, 4);
    assert!(core_cells(rect(0, 0, 0, 20), 8, 8).is_empty());
}

#[test]
fn device_panels() {
    let a = device_panel_layout(rect(0, 0, 50, 10), 3, 3);
    assert_eq!(a.table, rect(0, 0, 50, 4));
    assert_eq!(a.chart, Some(rect(0, 4, 50, 5)));
    assert_eq!(a.stats, Some(rect(0, 9, 50, 1)));
    let a = device_panel_layout(rect(0, 0, 50, 6), 8, 3);
    assert_eq!(a.table, rect(0, 0, 50, 4));
    assert_eq!(a.chart, None);
    assert_eq!(a.stats, Some(rect(0, 4, 50, 1)));
    let a = device_panel_layout(rect(0, 0, 50, 5), 3, 3);
    assert_eq!((a.chart, a.stats), (None, None));
    let areas = vec![rect(0, 0, 1, 1), rect(0, 1, 1, 1)];
    assert_eq!(device_panel_sections(&areas, false, true).stats, Some(rect(0, 1, 1, 1)));
    assert!(chart_fits(rect(0, 0, 5, 1)));
    assert!(!chart_fits(rect(0, 0, 4, 1)));
    assert!(!chart_fits(rect(0, 0, 50, 0)));
    let a = device_panel_layout(rect(3, 0, 50, 8), usize::MAX, usize::MAX);
    assert_eq!(a.table, rect(3, 0, 50, 8));
    assert_eq!((a.chart, a.stats), (None, None));
    assert_eq!(chart_x_extent(0, 0), 1);
    assert_eq!(chart_x_extent(300, 120), 300);
}

#[test]
fn device_titles_and_rows() {
    let mut s = state(false, None, 0);
    assert_eq!(disk_panel_title(&s), "Disk I/O [sda] (d/D)");
    assert_eq!(network_panel_title(&s), "Network [eth0] (n/N)");
    s.selected_network_index = 4;
    assert_eq!(network_panel_title(&s), "Network [\u{2014}] (n/N)");
    let t = Theme::nord();
    assert_eq!(device_row_background(&t, 2, 2), Some(t.highlight_bg));
    assert_eq!(device_row_background(&t, 1, 2), Some(t.row_alt_bg));
    assert_eq!(device_row_background(&t, 0, 2), None);
    assert_eq!(disk_name_color(&t, true), t.primary);
    assert_eq!(disk_name_color(&t, false), t.secondary);
    assert_eq!(network_name_color(&t, false), t.text);
    assert_eq!(link_status(&t, true), ("\u{25cf} ".to_string(), t.success));
    assert_eq!(link_status(&t, false), ("\u{25cb} ".to_string(), t.text_muted));
    assert_eq!(error_cell(&t, 0, 0), ("0".to_string(), t.text_dim));
    assert_eq!(error_cell(&t, 2, 5), ("7".to_string(), t.danger));
    assert_eq!(error_cell(&t, u64::MAX, 1), (u64::MAX.to_string(), t.danger));
    assert_eq!(error_cell(&t, u64::MAX, u64::MAX), (u64::MAX.to_string(), t.danger));
}

#[test]
fn device_limit_from_the_command_line() {
    assert_eq!(visible_device_limit(None), 3);
    assert_eq!(visible_device_limit(Some(0)), 1);
    assert_eq!(visible_device_limit(Some(7)), 7);
    assert_eq!(visible_device_limit(Some(500)), 20);
}

#[test]
fn histories_read_back_what_was_kept() {
    let mut h: DeviceHistories<u32> = DeviceHistories::new();
    assert_eq!(h.get(&"sda".to_string()), None);
    h.insert("sda".to_string(), 1);
    h.insert("nvme0n1".to_string(), 2);
    assert_eq!(h.get(&"sda".to_string()), Some(&1));
    h.insert("sda".to_string(), 3);
    assert_eq!(h.get(&"sda".to_string()), Some(&3));
    assert_eq!(h.get(&"nvme0n1".to_string()), Some(&2));
    assert_eq!(h.get(&"eth0".to_string()), None);
}

#[test]
fn selected_histories() {
    let mut s = state(false, None, 0);
    assert_eq!(selected_disk_history(&s), None);
    s.disk_histories.insert("sda".to_string(), 11);
    s.disk_histories.insert("nvme0n1".to_string(), 22);
    assert_eq!(selected_disk_history(&s), Some(&11));
    s.selected_disk_index = 0;
    assert_eq!(selected_disk_history(&s), Some(&22));
    s.selected_disk_index = 9;
    assert_eq!(selected_disk_history(&s), None);
    s.network_histories.insert("eth0".to_string(), 5);
    assert_eq!(selected_network_history(&s), Some(&5));
}

#[test]
fn gpu_panel_pieces() {
    assert_eq!(gpu_panel_title(2), "GPUs  2x");
    let cards = gpu_panel_layout(rect(1, 11, 100, 6), 2);
    assert_eq!(cards, vec![rect(1, 11, 100, 3), rect(1, 14, 100, 3)]);
    assert_eq!(gpu_card_layout(rect(0, 0, 29, 3)), None);
    assert_eq!(gpu_card_layout(rect(0, 0, 40, 0)), None);
    let c = gpu_card_layout(rect(1, 11, 100, 3)).unwrap();
    assert_eq!(c.header, rect(1, 11, 100, 1));
    assert_eq!((c.label_x, c.util_y, c.mem_y), (3, 12, 13));
    assert_eq!(c.util_gauge, rect(7, 12, 82, 1));
    assert_eq!(c.mem_gauge, rect(7, 13, 82, 1));
    let edge = gpu_card_layout(rect(65530, 0, 5, 3));
    assert_eq!(edge, None);
    let edge = gpu_card_layout(rect(65500, 0, 35, 3)).unwrap();
    assert_eq!(edge.label_x, 65502);
    assert_eq!(edge.util_gauge, rect(65506, 1, 17, 1));
    let far = gpu_card_layout(rect(65534, 0, 40, 3)).unwrap();
    assert_eq!(far.label_x, u16::MAX);
    assert_eq!(far.util_gauge.x, u16::MAX);
    assert_eq!(far.util_gauge.width, 0);
    assert_eq!(gpu_header_label(0), "  GPU 0  ");
    assert_eq!(gpu_header_label(12), "  GPU 12  ");
    assert_eq!(memory_metric_label(true), "MGP");
    assert_eq!(memory_metric_label(false), "MEM");
    assert_eq!(memory_label(80 << 30, false), MemoryLabel::UsedOfTotal);
    assert_eq!(memory_label(80 << 30, true), MemoryLabel::UsedOfTotal);
    assert_eq!(memory_label(0, true), MemoryLabel::UsedShared);
    assert_eq!(memory_label(0, false), MemoryLabel::NotAvailable);
}

#[test]
fn memory_panel_rows() {
    let m = memory_panel_layout(rect(60, 1, 50, 8));
    assert_eq!(m.ram_label, rect(60, 1, 50, 1));
    assert_eq!(m.swap_bar, rect(60, 4, 50, 1));
    assert_eq!(m.stats, rect(60, 6, 50, 1));
    assert_eq!(m.sparkline, rect(60, 7, 50, 2));
}

#[test]
fn process_panel_headers() {
    let t = Theme::green();
    let s = process_panel_style(&t, InputMode::ProcessSort, "GPU MEM", "");
    assert_eq!(s.title, "GPU Processes  SORT: GPU MEM");
    assert_eq!((s.border, s.title_color), (t.warning, t.warning));
    let s = process_panel_style(&t, InputMode::ProcessKill, "x", "y");
    assert_eq!(s.title, "GPU Processes  KILL");
    assert_eq!((s.border, s.title_color), (t.danger, t.danger));
    let s = process_panel_style(&t, InputMode::ProcessFilter, "x", "python");
    assert_eq!(s.title, "GPU Processes  /python");
    assert_eq!((s.border, s.title_color), (t.accent, t.accent));
    let s = process_panel_style(&t, InputMode::Normal, "x", "y");
    assert_eq!(s.title, "GPU Processes");
    assert_eq!((s.border, s.title_color), (t.border, t.primary));
    let r = process_row_style(&t, 3, 3);
    assert_eq!((r.bg, r.bold), (t.highlight_bg, true));
    assert_eq!(process_row_style(&t, 1, 3).bg, t.row_alt_bg);
    assert_eq!(process_row_style(&t, 2, 3).bg, t.background);
    assert!(!process_row_style(&t, 2, 3).bold);
}
