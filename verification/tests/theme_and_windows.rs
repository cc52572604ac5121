use dgxtop::theme::{Color, Theme};
use dgxtop::windows::{active_windows, windows_label};

#[test]
fn theme_names_pick_their_palettes() {
    assert_eq!(Theme::from_name("nord"), Theme::nord());
    assert_eq!(Theme::from_name("cyan"), Theme::cyan());
    assert_eq!(Theme::from_name("green"), Theme::green());
    assert_eq!(Theme::from_name("amber"), Theme::amber());
}

#[test]
fn unknown_theme_falls_back_to_nord() {
    assert_eq!(Theme::from_name("solarized"), Theme::nord());
    assert_eq!(Theme::from_name(""), Theme::nord());
    assert_eq!(Theme::from_name("Nord"), Theme::nord());
    assert_eq!(Theme::from_name("greenish"), Theme::nord());
}

#[test]
fn palettes_hold_their_colours() {
    let nord = Theme::nord();
    assert_eq!(nord.primary, Color::Rgb(136, 192, 208));
    assert_eq!(nord.background, Color::Reset);
    assert_eq!(nord.sparkline_color, Color::Rgb(94, 129, 172));
    assert_eq!(Theme::cyan().primary, Color::Rgb(0, 210, 210));
    assert_eq!(Theme::green().tab_active_fg, Color::Rgb(15, 15, 15));
    assert_eq!(Theme::amber().row_alt_bg, Color::Rgb(26, 22, 16));
}

fn whole(x: f64) -> i64 {
    x.floor() as i64
}

#[test]
fn percent_thresholds() {
    let t = Theme::cyan();
    assert_eq!(t.percent_color(whole(95.0)), t.gauge_high);
    assert_eq!(t.percent_color(whole(90.0)), t.gauge_high);
    assert_eq!(t.percent_color(whole(89.99)), t.gauge_mid);
    assert_eq!(t.percent_color(whole(70.0)), t.gauge_mid);
    assert_eq!(t.percent_color(whole(69.9)), t.gauge_low);
    assert_eq!(t.percent_color(whole(-3.0)), t.gauge_low);
    assert_eq!(t.percent_color(whole(f64::NAN)), t.gauge_low);
    assert_eq!(t.percent_color(whole(f64::INFINITY)), t.gauge_high);
}

#[test]
fn temperature_thresholds() {
    let t = Theme::amber();
    assert_eq!(t.temp_color(whole(85.0)), t.danger);
    assert_eq!(t.temp_color(whole(84.9)), t.warning);
    assert_eq!(t.temp_color(whole(70.0)), t.warning);
    assert_eq!(t.temp_color(whole(45.5)), t.success);
}

#[test]
fn windows_appear_progressively() {
    assert_eq!(active_windows(0), Vec::<usize>::new());
    assert_eq!(active_windows(1), vec![1]);
    assert_eq!(active_windows(5), vec![1]);
    assert_eq!(active_windows(6), vec![1, 6]);
    assert_eq!(active_windows(23), vec![1, 6, 12]);
    assert_eq!(active_windows(24), vec![1, 6, 12, 24]);
    assert_eq!(active_windows(1000), vec![1, 6, 12, 24]);
    for e in 0..30u64 {
        let a = active_windows(e);
        let b = active_windows(e + 1);
        assert_eq!(&b[..a.len()], &a[..]);
    }
}

#[test]
fn window_labels() {
    assert_eq!(windows_label(&[1]), "1h");
    assert_eq!(windows_label(&[1, 6, 12, 24]), "1/6/12/24h");
    assert_eq!(windows_label(&[]), "h");
}
