use vstd::prelude::*;

use crate::layout::{bordered_inner, panel_inner, Rect};
use crate::state::InputMode;
use crate::theme::{Color, Theme};

verus! {

/// The header of the process table's panel: its title and the colours of
/// its border and title, which show what the keyboard drives.
pub struct ProcessPanelStyle {
    pub title: String,
    pub border: Color,
    pub title_color: Color,
}

/// The title of the process panel: the sort column while sorting, `KILL`
/// while a kill waits for confirmation, the filter text while filtering.
pub open spec fn process_title(mode: InputMode, sort_label: Seq<char>, filter: Seq<char>) -> Seq<char> {
    match mode {
        InputMode::ProcessSort => "GPU Processes  SORT: "@ + sort_label,
        InputMode::ProcessKill => "GPU Processes  KILL"@,
        InputMode::ProcessFilter => "GPU Processes  /"@ + filter,
        InputMode::Normal => "GPU Processes"@,
    }
}

/// The border colour of the process panel for each input mode.
pub open spec fn process_border(theme: Theme, mode: InputMode) -> Color {
    match mode {
        InputMode::ProcessSort => theme.warning,
        InputMode::ProcessKill => theme.danger,
        InputMode::ProcessFilter => theme.accent,
        InputMode::Normal => theme.border,
    }
}

/// The title colour of the process panel for each input mode.
pub open spec fn process_title_color(theme: Theme, mode: InputMode) -> Color {
    match mode {
        InputMode::ProcessSort => theme.warning,
        InputMode::ProcessKill => theme.danger,
        InputMode::ProcessFilter => theme.accent,
        InputMode::Normal => theme.primary,
    }
}

/// Builds the header of the process table's panel.
pub fn process_panel_style(theme: &Theme, mode: InputMode, sort_label: &str, filter: &str) -> (s: ProcessPanelStyle)
    ensures
        s.title@ == process_title(mode, sort_label@, filter@),
        s.border == process_border(*theme, mode),
        s.title_color == process_title_color(*theme, mode),
{
    let mut title = String::new();
    match mode {
        InputMode::ProcessSort => {
            title.append("GPU Processes  SORT: ");
            title.append(sort_label);
            ProcessPanelStyle { title, border: theme.warning, title_color: theme.warning }
        },
        InputMode::ProcessKill => {
            title.append("GPU Processes  KILL");
            ProcessPanelStyle { title, border: theme.danger, title_color: theme.danger }
        },
        InputMode::ProcessFilter => {
            title.append("GPU Processes  /");
            title.append(filter);
            ProcessPanelStyle { title, border: theme.accent, title_color: theme.accent }
        },
        InputMode::Normal => {
            title.append("GPU Processes");
            ProcessPanelStyle { title, border: theme.border, title_color: theme.primary }
        },
    }
}

/// The space for the process table inside its panel, when it has room for
/// the header and at least one row.
pub fn process_table_area(area: Rect) -> (r: Option<Rect>)
    ensures
        r == (if bordered_inner(area).height >= 2 {
            Some(bordered_inner(area))
        } else {
            None
        }),
{
    let inner = panel_inner(area);
    if inner.height < 2 {
        None
    } else {
        Some(inner)
    }
}

/// The style of a process row: text colour, background, and whether it is
/// bold.
#[derive(Clone, Copy, Debug, PartialEq, Eq, Structural)]
pub struct ProcessRowStyle {
    pub fg: Color,
    pub bg: Color,
    pub bold: bool,
}

/// The style of row `row` of the process table: the selected process is
/// highlighted in bold; the others alternate between the theme's background
/// and the alternate row shade, odd rows shaded.
pub open spec fn process_row(theme: Theme, row: nat, selected: nat) -> ProcessRowStyle {
    if row == selected {
        ProcessRowStyle { fg: theme.text, bg: theme.highlight_bg, bold: true }
    } else {
        ProcessRowStyle {
            fg: theme.text,
            bg: if row % 2 == 1 {
                theme.row_alt_bg
            } else {
                theme.background
            },
            bold: false,
        }
    }
}

/// The style of a row of the process table.
pub fn process_row_style(theme: &Theme, row: usize, selected: usize) -> (s: ProcessRowStyle)
    ensures
        s == process_row(*theme, row as nat, selected as nat),
{
    if row == selected {
        ProcessRowStyle { fg: theme.text, bg: theme.highlight_bg, bold: true }
    } else {
        let bg = if row % 2 == 1 { theme.row_alt_bg } else { theme.background };
        ProcessRowStyle { fg: theme.text, bg, bold: false }
    }
}

} // verus!
