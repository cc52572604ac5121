use vstd::prelude::*;

use crate::text::str_is;

verus! {

/// A terminal colour used by a theme: the terminal's own default, or an RGB
/// triple.
#[derive(Clone, Copy, Debug, PartialEq, Eq, Structural)]
pub enum Color {
    Reset,
    Rgb(u8, u8, u8),
}

/// Colour theme for the entire UI.
#[derive(Clone, Copy, Debug, PartialEq, Eq, Structural)]
pub struct Theme {
    pub primary: Color,
    pub secondary: Color,
    pub accent: Color,
    pub success: Color,
    pub warning: Color,
    pub danger: Color,
    pub text: Color,
    pub text_dim: Color,
    pub text_muted: Color,
    pub border: Color,
    pub border_active: Color,
    pub background: Color,
    pub highlight_bg: Color,
    pub header_bg: Color,
    pub tab_active_bg: Color,
    pub tab_active_fg: Color,
    pub gauge_low: Color,
    pub gauge_mid: Color,
    pub gauge_high: Color,
    pub gauge_bg: Color,
    pub sparkline_color: Color,
    pub row_alt_bg: Color,
}

impl Theme {
    /// The cyan palette.
    pub open spec fn cyan_palette() -> Theme {
        Theme {
            primary: Color::Rgb(0, 210, 210),
            secondary: Color::Rgb(80, 120, 200),
            accent: Color::Rgb(180, 100, 220),
            success: Color::Rgb(80, 200, 120),
            warning: Color::Rgb(230, 180, 40),
            danger: Color::Rgb(220, 60, 60),
            text: Color::Rgb(220, 220, 220),
            text_dim: Color::Rgb(140, 140, 140),
            text_muted: Color::Rgb(80, 80, 80),
            border: Color::Rgb(60, 65, 70),
            border_active: Color::Rgb(0, 210, 210),
            background: Color::Reset,
            highlight_bg: Color::Rgb(40, 50, 60),
            header_bg: Color::Rgb(20, 25, 32),
            tab_active_bg: Color::Rgb(0, 210, 210),
            tab_active_fg: Color::Rgb(15, 15, 20),
            gauge_low: Color::Rgb(80, 200, 120),
            gauge_mid: Color::Rgb(230, 180, 40),
            gauge_high: Color::Rgb(220, 60, 60),
            gauge_bg: Color::Rgb(40, 42, 46),
            sparkline_color: Color::Rgb(0, 160, 180),
            row_alt_bg: Color::Rgb(22, 24, 28),
        }
    }

    /// The Nord palette (the default).
    pub open spec fn nord_palette() -> Theme {
        Theme {
            primary: Color::Rgb(136, 192, 208),
            secondary: Color::Rgb(129, 161, 193),
            accent: Color::Rgb(180, 142, 173),
            success: Color::Rgb(163, 190, 140),
            warning: Color::Rgb(235, 203, 139),
            danger: Color::Rgb(191, 97, 106),
            text: Color::Rgb(236, 239, 244),
            text_dim: Color::Rgb(216, 222, 233),
            text_muted: Color::Rgb(76, 86, 106),
            border: Color::Rgb(59, 66, 82),
            border_active: Color::Rgb(136, 192, 208),
            background: Color::Reset,
            highlight_bg: Color::Rgb(67, 76, 94),
            header_bg: Color::Rgb(46, 52, 64),
            tab_active_bg: Color::Rgb(136, 192, 208),
            tab_active_fg: Color::Rgb(46, 52, 64),
            gauge_low: Color::Rgb(163, 190, 140),
            gauge_mid: Color::Rgb(235, 203, 139),
            gauge_high: Color::Rgb(191, 97, 106),
            gauge_bg: Color::Rgb(59, 66, 82),
            sparkline_color: Color::Rgb(94, 129, 172),
            row_alt_bg: Color::Rgb(59, 66, 82),
        }
    }

    /// The green palette.
    pub open spec fn green_palette() -> Theme {
        Theme {
            primary: Color::Rgb(80, 220, 100),
            secondary: Color::Rgb(0, 180, 180),
            accent: Color::Rgb(230, 180, 40),
            success: Color::Rgb(80, 220, 100),
            warning: Color::Rgb(230, 180, 40),
            danger: Color::Rgb(220, 60, 60),
            text: Color::Rgb(220, 220, 220),
            text_dim: Color::Rgb(140, 140, 140),
            text_muted: Color::Rgb(80, 80, 80),
            border: Color::Rgb(55, 65, 55),
            border_active: Color::Rgb(80, 220, 100),
            background: Color::Reset,
            highlight_bg: Color::Rgb(35, 50, 35),
            header_bg: Color::Rgb(18, 24, 18),
            tab_active_bg: Color::Rgb(80, 220, 100),
            tab_active_fg: Color::Rgb(15, 15, 15),
            gauge_low: Color::Rgb(80, 220, 100),
            gauge_mid: Color::Rgb(230, 180, 40),
            gauge_high: Color::Rgb(220, 60, 60),
            gauge_bg: Color::Rgb(38, 42, 38),
            sparkline_color: Color::Rgb(60, 180, 80),
            row_alt_bg: Color::Rgb(20, 26, 20),
        }
    }

    /// The amber palette.
    pub open spec fn amber_palette() -> Theme {
        Theme {
            primary: Color::Rgb(240, 180, 40),
            secondary: Color::Rgb(220, 120, 20),
            accent: Color::Rgb(0, 180, 200),
            success: Color::Rgb(80, 200, 120),
            warning: Color::Rgb(240, 180, 40),
            danger: Color::Rgb(220, 60, 60),
            text: Color::Rgb(220, 220, 220),
            text_dim: Color::Rgb(140, 140, 140),
            text_muted: Color::Rgb(80, 80, 80),
            border: Color::Rgb(65, 58, 45),
            border_active: Color::Rgb(240, 180, 40),
            background: Color::Reset,
            highlight_bg: Color::Rgb(50, 42, 28),
            header_bg: Color::Rgb(24, 20, 14),
            tab_active_bg: Color::Rgb(240, 180, 40),
            tab_active_fg: Color::Rgb(15, 12, 5),
            gauge_low: Color::Rgb(80, 200, 120),
            gauge_mid: Color::Rgb(240, 180, 40),
            gauge_high: Color::Rgb(220, 60, 60),
            gauge_bg: Color::Rgb(42, 40, 36),
            sparkline_color: Color::Rgb(200, 150, 30),
            row_alt_bg: Color::Rgb(26, 22, 16),
        }
    }

    /// The cyan palette.
    pub fn cyan() -> (t: Self)
        ensures
            t == Self::cyan_palette(),
    {
        Self {
            primary: Color::Rgb(0, 210, 210),
            secondary: Color::Rgb(80, 120, 200),
            accent: Color::Rgb(180, 100, 220),
            success: Color::Rgb(80, 200, 120),
            warning: Color::Rgb(230, 180, 40),
            danger: Color::Rgb(220, 60, 60),
            text: Color::Rgb(220, 220, 220),
            text_dim: Color::Rgb(140, 140, 140),
            text_muted: Color::Rgb(80, 80, 80),
            border: Color::Rgb(60, 65, 70),
            border_active: Color::Rgb(0, 210, 210),
            background: Color::Reset,
            highlight_bg: Color::Rgb(40, 50, 60),
            header_bg: Color::Rgb(20, 25, 32),
            tab_active_bg: Color::Rgb(0, 210, 210),
            tab_active_fg: Color::Rgb(15, 15, 20),
            gauge_low: Color::Rgb(80, 200, 120),
            gauge_mid: Color::Rgb(230, 180, 40),
            gauge_high: Color::Rgb(220, 60, 60),
            gauge_bg: Color::Rgb(40, 42, 46),
            sparkline_color: Color::Rgb(0, 160, 180),
            row_alt_bg: Color::Rgb(22, 24, 28),
        }
    }

    /// The Nord palette (the default).
    pub fn nord() -> (t: Self)
        ensures
            t == Self::nord_palette(),
    {
        Self {
            primary: Color::Rgb(136, 192, 208),
            secondary: Color::Rgb(129, 161, 193),
            accent: Color::Rgb(180, 142, 173),
            success: Color::Rgb(163, 190, 140),
            warning: Color::Rgb(235, 203, 139),
            danger: Color::Rgb(191, 97, 106),
            text: Color::Rgb(236, 239, 244),
            text_dim: Color::Rgb(216, 222, 233),
            text_muted: Color::Rgb(76, 86, 106),
            border: Color::Rgb(59, 66, 82),
            border_active: Color::Rgb(136, 192, 208),
            background: Color::Reset,
            highlight_bg: Color::Rgb(67, 76, 94),
            header_bg: Color::Rgb(46, 52, 64),
            tab_active_bg: Color::Rgb(136, 192, 208),
            tab_active_fg: Color::Rgb(46, 52, 64),
            gauge_low: Color::Rgb(163, 190, 140),
            gauge_mid: Color::Rgb(235, 203, 139),
            gauge_high: Color::Rgb(191, 97, 106),
            gauge_bg: Color::Rgb(59, 66, 82),
            sparkline_color: Color::Rgb(94, 129, 172),
            row_alt_bg: Color::Rgb(59, 66, 82),
        }
    }

    /// The green palette.
    pub fn green() -> (t: Self)
        ensures
            t == Self::green_palette(),
    {
        Self {
            primary: Color::Rgb(80, 220, 100),
            secondary: Color::Rgb(0, 180, 180),
            accent: Color::Rgb(230, 180, 40),
            success: Color::Rgb(80, 220, 100),
            warning: Color::Rgb(230, 180, 40),
            danger: Color::Rgb(220, 60, 60),
            text: Color::Rgb(220, 220, 220),
            text_dim: Color::Rgb(140, 140, 140),
            text_muted: Color::Rgb(80, 80, 80),
            border: Color::Rgb(55, 65, 55),
            border_active: Color::Rgb(80, 220, 100),
            background: Color::Reset,
            highlight_bg: Color::Rgb(35, 50, 35),
            header_bg: Color::Rgb(18, 24, 18),
            tab_active_bg: Color::Rgb(80, 220, 100),
            tab_active_fg: Color::Rgb(15, 15, 15),
            gauge_low: Color::Rgb(80, 220, 100),
            gauge_mid: Color::Rgb(230, 180, 40),
            gauge_high: Color::Rgb(220, 60, 60),
            gauge_bg: Color::Rgb(38, 42, 38),
            sparkline_color: Color::Rgb(60, 180, 80),
            row_alt_bg: Color::Rgb(20, 26, 20),
        }
    }

    /// The amber palette.
    pub fn amber() -> (t: Self)
        ensures
            t == Self::amber_palette(),
    {
        Self {
            primary: Color::Rgb(240, 180, 40),
            secondary: Color::Rgb(220, 120, 20),
            accent: Color::Rgb(0, 180, 200),
            success: Color::Rgb(80, 200, 120),
            warning: Color::Rgb(240, 180, 40),
            danger: Color::Rgb(220, 60, 60),
            text: Color::Rgb(220, 220, 220),
            text_dim: Color::Rgb(140, 140, 140),
            text_muted: Color::Rgb(80, 80, 80),
            border: Color::Rgb(65, 58, 45),
            border_active: Color::Rgb(240, 180, 40),
            background: Color::Reset,
            highlight_bg: Color::Rgb(50, 42, 28),
            header_bg: Color::Rgb(24, 20, 14),
            tab_active_bg: Color::Rgb(240, 180, 40),
            tab_active_fg: Color::Rgb(15, 12, 5),
            gauge_low: Color::Rgb(80, 200, 120),
            gauge_mid: Color::Rgb(240, 180, 40),
            gauge_high: Color::Rgb(220, 60, 60),
            gauge_bg: Color::Rgb(42, 40, 36),
            sparkline_color: Color::Rgb(200, 150, 30),
            row_alt_bg: Color::Rgb(26, 22, 16),
        }
    }


    /// The theme called `name` (`cyan`, `green`, `amber` or `nord`); any
    /// other name gives the default theme, Nord.
    pub open spec fn named(name: Seq<char>) -> Theme {
        if name == seq!['c', 'y', 'a', 'n'] {
            Self::cyan_palette()
        } else if name == seq!['g', 'r', 'e', 'e', 'n'] {
            Self::green_palette()
        } else if name == seq!['a', 'm', 'b', 'e', 'r'] {
            Self::amber_palette()
        } else {
            Self::nord_palette()
        }
    }

    /// Picks the theme named on the command line; an unknown name falls back
    /// to Nord.
    pub fn from_name(name: &str) -> (t: Self)
        ensures
            t == Self::named(name@),
    {
        if str_is(name, &['n', 'o', 'r', 'd']) {
            Self::nord()
        } else if str_is(name, &['c', 'y', 'a', 'n']) {
            Self::cyan()
        } else if str_is(name, &['g', 'r', 'e', 'e', 'n']) {
            Self::green()
        } else if str_is(name, &['a', 'm', 'b', 'e', 'r']) {
            Self::amber()
        } else {
            Self::nord()
        }
    }

    /// How alarming a percentage is: 2 from 90 up, 1 from 70 up, 0 below.
    pub open spec fn percent_level(percent: int) -> nat {
        if percent >= 90 {
            2
        } else if percent >= 70 {
            1
        } else {
            0
        }
    }

    /// How alarming a temperature is: 2 from 85 °C up, 1 from 70 °C up, 0
    /// below.
    pub open spec fn temp_level(celsius: int) -> nat {
        if celsius >= 85 {
            2
        } else if celsius >= 70 {
            1
        } else {
            0
        }
    }

    /// The gauge colour for a percentage: high from 90 up, mid from 70 up,
    /// low below. `percent` is the whole part (the floor) of the percentage;
    /// as the thresholds are whole numbers, comparing the whole part gives
    /// the same answer as comparing the percentage itself.
    pub fn percent_color(&self, percent: i64) -> (c: Color)
        ensures
            c == (if Self::percent_level(percent as int) == 2 {
                self.gauge_high
            } else if Self::percent_level(percent as int) == 1 {
                self.gauge_mid
            } else {
                self.gauge_low
            }),
    {
        if percent >= 90 {
            self.gauge_high
        } else if percent >= 70 {
            self.gauge_mid
        } else {
            self.gauge_low
        }
    }

    /// The colour for a temperature: danger from 85 °C up, warning from
    /// 70 °C up, success below. `celsius` is the whole part (the floor) of
    /// the temperature, which compares with the whole-degree thresholds as
    /// the temperature itself does.
    pub fn temp_color(&self, celsius: i64) -> (c: Color)
        ensures
            c == (if Self::temp_level(celsius as int) == 2 {
                self.danger
            } else if Self::temp_level(celsius as int) == 1 {
                self.warning
            } else {
                self.success
            }),
    {
        if celsius >= 85 {
            self.danger
        } else if celsius >= 70 {
            self.warning
        } else {
            self.success
        }
    }
}

/// Whether a colour is a red: its red channel is the strongest.
pub open spec fn is_reddish(c: Color) -> bool {
    match c {
        Color::Rgb(r, g, b) => r > g && r > b,
        Color::Reset => false,
    }
}

/// Whether a colour is a green: its green channel is the strongest.
pub open spec fn is_greenish(c: Color) -> bool {
    match c {
        Color::Rgb(r, g, b) => g > r && g > b,
        Color::Reset => false,
    }
}

/// Whether a colour is a yellow or amber: red and green both above blue,
/// red at least as strong as green.
pub open spec fn is_yellowish(c: Color) -> bool {
    match c {
        Color::Rgb(r, g, b) => r > b && g > b && r >= g,
        Color::Reset => false,
    }
}

/// What every palette keeps: the gauges use the status colours (low is
/// success, mid is warning, high is danger); success is a green, warning a
/// yellow, danger a red; and the background is the terminal's own.
pub proof fn lemma_palette_meaning(t: Theme)
    requires
        t == Theme::cyan_palette() || t == Theme::nord_palette() || t == Theme::green_palette()
            || t == Theme::amber_palette(),
    ensures
        t.gauge_low == t.success,
        t.gauge_mid == t.warning,
        t.gauge_high == t.danger,
        is_greenish(t.success),
        is_yellowish(t.warning),
        is_reddish(t.danger),
        t.background == Color::Reset,
{
}

/// Each theme name picks its own palette, the four palettes differ, and any
/// other name picks Nord.
pub proof fn lemma_theme_names(name: Seq<char>)
    ensures
        Theme::named(seq!['n', 'o', 'r', 'd']) == Theme::nord_palette(),
        Theme::named(seq!['c', 'y', 'a', 'n']) == Theme::cyan_palette(),
        Theme::named(seq!['g', 'r', 'e', 'e', 'n']) == Theme::green_palette(),
        Theme::named(seq!['a', 'm', 'b', 'e', 'r']) == Theme::amber_palette(),
        Theme::nord_palette().primary != Theme::cyan_palette().primary,
        Theme::nord_palette().primary != Theme::green_palette().primary,
        Theme::nord_palette().primary != Theme::amber_palette().primary,
        Theme::cyan_palette().primary != Theme::green_palette().primary,
        Theme::cyan_palette().primary != Theme::amber_palette().primary,
        Theme::green_palette().primary != Theme::amber_palette().primary,
        name != seq!['c', 'y', 'a', 'n'] && name != seq!['g', 'r', 'e', 'e', 'n'] && name != seq![
            'a',
            'm',
            'b',
            'e',
            'r',
        ] ==> Theme::named(name) == Theme::nord_palette(),
{
}

/// The levels are exactly the three bands of the thresholds: a percentage
/// is high from 90 up, mid from 70 up, low below; a temperature is danger
/// from 85 °C up, warning from 70 °C up, success below.
pub proof fn lemma_level_bands(v: int)
    ensures
        Theme::percent_level(v) <= 2,
        (Theme::percent_level(v) == 2) == (v >= 90),
        (Theme::percent_level(v) == 1) == (70 <= v < 90),
        (Theme::percent_level(v) == 0) == (v < 70),
        Theme::temp_level(v) <= 2,
        (Theme::temp_level(v) == 2) == (v >= 85),
        (Theme::temp_level(v) == 1) == (70 <= v < 85),
        (Theme::temp_level(v) == 0) == (v < 70),
{
}

/// A higher percentage or temperature is never shown in a calmer colour:
/// the levels that pick the colours only grow with the value.
pub proof fn lemma_levels_monotone(a: int, b: int)
    requires
        a <= b,
    ensures
        Theme::percent_level(a) <= Theme::percent_level(b),
        Theme::temp_level(a) <= Theme::temp_level(b),
{
}

} // verus!
