use std::path::Path;

use vmedia::path::{file_name_of, join_path, normalize_path, same_path_text, contains_str};
use vmedia::text::{
    decimal_string, fixed0_string, fixed1_string, format_duration, format_time,
    shortest_fixed_string, signed_decimal_string,
};

#[test]
fn decimal_text() {
    assert_eq!(decimal_string(0), "0");
    assert_eq!(decimal_string(7), "7");
    assert_eq!(decimal_string(1205), "1205");
    assert_eq!(decimal_string(u64::MAX), u64::MAX.to_string());
    assert_eq!(signed_decimal_string(-42), "-42");
    assert_eq!(signed_decimal_string(i64::MIN), i64::MIN.to_string());
}

#[test]
fn clock_and_duration_text() {
    assert_eq!(format_time(0), "0:00");
    assert_eq!(format_time(65_000), "1:05");
    assert_eq!(format_time(3_725_999), "1:02:05");
    assert_eq!(format_time(-5_000), "0:00");
    assert_eq!(format_duration(65_000), "01:05");
    assert_eq!(format_duration(3_600_000), "1:00:00");
    assert_eq!(format_duration(9_000), "00:09");
}

#[test]
fn fixed_point_text_matches_float_formatting() {
    // Multiples of an eighth of a second are exact in binary, ties included.
    let mut ms: i64 = -10_000;
    while ms <= 10_000 {
        let seconds = ms as f64 / 1000.0;
        assert_eq!(fixed0_string(ms), format!("{:.0}", seconds), "{ms}");
        assert_eq!(fixed1_string(ms), format!("{:.1}", seconds), "{ms}");
        assert_eq!(shortest_fixed_string(ms), seconds.to_string(), "{ms}");
        ms += 125;
    }
    assert_eq!(fixed0_string(2_500), "2");
    assert_eq!(fixed0_string(3_500), "4");
    assert_eq!(fixed1_string(250), "0.2");
    assert_eq!(fixed1_string(1_500), "1.5");
    assert_eq!(fixed1_string(-40), "-0.0");
}

#[test]
fn shortest_fixed_text() {
    assert_eq!(shortest_fixed_string(5_000), "5");
    assert_eq!(shortest_fixed_string(-5_000), "-5");
    assert_eq!(shortest_fixed_string(1_050), "1.05");
    assert_eq!(shortest_fixed_string(1_234), "1.234");
    assert_eq!(shortest_fixed_string(0), "0");
    for ms in [1, 7, 10, 99, 101, 1_001, 123_456, -987] {
        assert_eq!(shortest_fixed_string(ms), (ms as f64 / 1000.0).to_string());
    }
}

const SAMPLE_PATHS: &[&str] = &[
    "",
    "/",
    ".",
    "..",
    "./",
    "./.",
    "/.",
    "a",
    "a/",
    "a/.",
    "a/..",
    "a/./b",
    "a//b",
    "./a",
    "/a/b/c.mkv",
    "/a/b/c.mkv/",
    "/a/b/c.mkv/.",
    "//x",
    "../up",
    "movie.mp4",
    "dir/片名.mkv",
];

#[test]
fn file_names_follow_std_paths() {
    for p in SAMPLE_PATHS {
        let expected = Path::new(p).file_name().map(|n| n.to_str().unwrap().to_string());
        assert_eq!(file_name_of(p), expected, "{p:?}");
    }
}

#[test]
fn path_equality_follows_std_paths() {
    for a in SAMPLE_PATHS {
        for b in SAMPLE_PATHS {
            assert_eq!(
                same_path_text(a, b),
                Path::new(a) == Path::new(b),
                "{a:?} {b:?} {:?} {:?}",
                normalize_path(a),
                normalize_path(b)
            );
        }
    }
}

#[test]
fn joins_follow_std_paths() {
    for base in SAMPLE_PATHS {
        for rel in ["vmedia", "/abs", ".config", ""] {
            let expected = Path::new(base).join(rel).to_str().unwrap().to_string();
            assert_eq!(join_path(base, rel), expected, "{base:?} {rel:?}");
        }
    }
}

#[test]
fn text_search() {
    assert!(contains_str("libmpv error (-10): property unavailable", "property unavailable"));
    assert!(!contains_str("libmpv error (-8): property not found", "property unavailable"));
    assert!(contains_str("abc", ""));
    assert!(!contains_str("", "a"));
}

#[test]
fn trim_text_matches_str_trim() {
    let mut samples: Vec<String> = vec![
        String::new(),
        "abc".to_string(),
        "  音量 ".to_string(),
        "\t\n a b \r\n".to_string(),
        "\u{200b}x\u{200b}".to_string(),
        "\u{feff} x \u{feff}".to_string(),
        "\u{3000}全屏\u{3000}".to_string(),
    ];
    for c in (0u32..0x3100).filter_map(char::from_u32) {
        samples.push(format!("{c}x{c}"));
        samples.push(format!("{c}"));
        samples.push(format!("{c}{c}a{c} b{c}"));
    }
    for s in &samples {
        assert_eq!(vmedia::text::trim_text(s), s.trim(), "{s:?}");
    }
    for c in (0u32..0x11000).filter_map(char::from_u32) {
        assert_eq!(vmedia::text::is_white_space_char(c), c.is_whitespace(), "{c:?}");
    }
}
