use dgxtop::text::{block_title, decimal_string, right_aligned_index, str_is, truncate_str};
use dgxtop::units::{format_bytes, format_bytes_short};

/// The byte formatting as it reads with floating point.
fn float_format_bytes(bytes: u64) -> String {
    if bytes >= 1024 * 1024 * 1024 {
        format!("{:.1} GB", bytes as f64 / (1024.0 * 1024.0 * 1024.0))
    } else if bytes >= 1024 * 1024 {
        format!("{:.0} MB", bytes as f64 / (1024.0 * 1024.0))
    } else if bytes >= 1024 {
        format!("{:.0} KB", bytes as f64 / 1024.0)
    } else {
        format!("{bytes} B")
    }
}

fn float_format_bytes_short(bytes: u64) -> String {
    if bytes >= 1024 * 1024 * 1024 {
        format!("{:.1}G", bytes as f64 / (1024.0 * 1024.0 * 1024.0))
    } else if bytes >= 1024 * 1024 {
        format!("{:.0}M", bytes as f64 / (1024.0 * 1024.0))
    } else {
        format!("{:.0}K", bytes as f64 / 1024.0)
    }
}

fn sample_byte_counts() -> Vec<u64> {
    let gib: u64 = 1 << 30;
    let mut v = vec![
        0,
        1,
        512,
        1023,
        1024,
        1535,
        1536,
        2560,
        3584,
        1048575,
        1048576,
        1572864,
        2621440,
        gib - 1,
        gib,
        gib + gib / 20,
        1342177280,
        1449551462,
        5 * gib / 4,
        (1u64 << 53) - 1,
        1u64 << 53,
        (1u64 << 53) + 1,
        (1u64 << 53) + 3,
        (1u64 << 60) + 12345,
        u64::MAX - 1,
        u64::MAX,
    ];
    let mut x: u64 = 0x9E3779B97F4A7C15;
    for _ in 0..2000 {
        x ^= x << 13;
        x ^= x >> 7;
        x ^= x << 17;
        v.push(x >> (x % 64));
    }
    for k in 0..2000u64 {
        v.push(k * (1 << 27));
        v.push(k * 512);
        v.push(k * (1 << 19));
    }
    v
}

#[test]
fn format_bytes_matches_float_formatting() {
    for b in sample_byte_counts() {
        assert_eq!(format_bytes(b), float_format_bytes(b), "bytes = {b}");
    }
}

#[test]
fn format_bytes_short_matches_float_formatting() {
    for b in sample_byte_counts() {
        assert_eq!(format_bytes_short(b), float_format_bytes_short(b), "bytes = {b}");
    }
}

#[test]
fn format_bytes_units() {
    assert_eq!(format_bytes(0), "0 B");
    assert_eq!(format_bytes(1023), "1023 B");
    assert_eq!(format_bytes(1024), "1 KB");
    assert_eq!(format_bytes(1536), "2 KB");
    assert_eq!(format_bytes(2560), "2 KB");
    assert_eq!(format_bytes(300 * 1024 * 1024), "300 MB");
    assert_eq!(format_bytes(3 * 1024 * 1024 * 1024 / 2), "1.5 GB");
    assert_eq!(format_bytes(1342177280), "1.2 GB");
    assert_eq!(format_bytes(u64::MAX), "17179869184.0 GB");
}

#[test]
fn format_bytes_short_units() {
    assert_eq!(format_bytes_short(0), "0K");
    assert_eq!(format_bytes_short(512), "0K");
    assert_eq!(format_bytes_short(1536), "2K");
    assert_eq!(format_bytes_short(1048576), "1M");
    assert_eq!(format_bytes_short(1024 * 1024 * 1024 - 1), "1024M");
    assert_eq!(format_bytes_short(7 * 1024 * 1024 * 1024 / 2), "3.5G");
}

#[test]
fn truncate_keeps_short_strings() {
    assert_eq!(truncate_str("hello", 5), "hello");
    assert_eq!(truncate_str("hello", 32), "hello");
    assert_eq!(truncate_str("", 3), "");
}

#[test]
fn truncate_marks_the_cut() {
    assert_eq!(truncate_str("hello world", 5), "hell\u{2026}");
    assert_eq!(truncate_str("hello", 1), "\u{2026}");
    assert_eq!(truncate_str("hello", 0), "");
}

#[test]
fn truncate_counts_characters_not_bytes() {
    let s = "\u{9ed1}\u{98a8}\u{96f7}\u{9ed1}";
    assert_eq!(truncate_str(s, 4), s);
    assert_eq!(truncate_str(s, 3), "\u{9ed1}\u{98a8}\u{2026}");
    for max in 0..8 {
        assert!(truncate_str("caf\u{e9} cr\u{e8}me", max).chars().count() <= max);
    }
}

#[test]
fn right_aligned_labels() {
    assert_eq!(right_aligned_index(7, 3), "  7");
    assert_eq!(right_aligned_index(42, 3), " 42");
    assert_eq!(right_aligned_index(127, 4), " 127");
    assert_eq!(right_aligned_index(12345, 3), "12345");
    assert_eq!(right_aligned_index(0, 0), "0");
}

#[test]
fn titles_and_decimals() {
    assert_eq!(block_title("CPU"), " CPU ");
    assert_eq!(block_title(""), "  ");
    assert_eq!(decimal_string(0), "0");
    assert_eq!(decimal_string(1234567890), "1234567890");
    assert_eq!(decimal_string(u64::MAX), u64::MAX.to_string());
}

#[test]
fn str_is_compares_characters() {
    assert!(str_is("nord", &['n', 'o', 'r', 'd']));
    assert!(!str_is("nor", &['n', 'o', 'r', 'd']));
    assert!(!str_is("Nord", &['n', 'o', 'r', 'd']));
    assert!(str_is("", &[]));
}
