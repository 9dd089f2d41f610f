use karlson::text::char_is_digit;
use karlson::text::char_is_space;
use karlson::text::chars_of;
use karlson::text::contains;
use karlson::text::decimal;
use karlson::text::join_path;
use karlson::text::parse_i32;
use karlson::text::parse_trimmed_usize;
use karlson::text::parse_usize;
use karlson::text::path_file_name;
use karlson::text::remove_char;
use karlson::text::same_text;
use karlson::text::signed_decimal;
use karlson::text::trim;
use karlson::text::trim_bounds;
use karlson::text::usize_in;
use std::path::Path;
use std::path::PathBuf;

fn samples() -> Vec<&'static str> {
    vec![
        "",
        " ",
        "0",
        "7",
        "42",
        "0042",
        "+42",
        "-42",
        "+",
        "-",
        "+-1",
        "--1",
        "++1",
        " 42",
        "42 ",
        "\t42\n",
        "4 2",
        "42a",
        "a42",
        "4.2",
        "2147483647",
        "2147483648",
        "-2147483648",
        "-2147483649",
        "+2147483647",
        "4294967295",
        "4294967296",
        "18446744073709551615",
        "18446744073709551616",
        "+18446744073709551615",
        "00000000000000000000000000000018446744073709551615",
        "99999999999999999999999999999999999999999999",
        "-0",
        "+0",
        "\u{0663}",
        "1\u{0663}",
        "\u{a0}12\u{3000}",
        "\u{2003}5\u{205f}",
        "  \n\r\t ",
        "54000\n",
        "95 %\n",
        "x",
    ]
}

#[test]
fn white_space_is_that_of_the_standard() {
    let mut code: u32 = 0;
    while code <= 0x10FFFF {
        if let Some(c) = char::from_u32(code) {
            assert_eq!(char_is_space(c), c.is_whitespace(), "U+{:04X}", code);
        }
        code += 1;
    }
}

#[test]
fn digits_are_the_ascii_ones() {
    for c in ['0', '5', '9'] {
        assert!(char_is_digit(c));
    }
    for c in ['/', ':', 'a', ' ', '\u{0663}', '+'] {
        assert!(!char_is_digit(c));
    }
}

#[test]
fn chars_of_gives_every_character() {
    assert_eq!(chars_of(""), Vec::<char>::new());
    assert_eq!(chars_of("a\u{3000}b"), vec!['a', '\u{3000}', 'b']);
}

#[test]
fn trim_is_that_of_the_standard() {
    for s in samples() {
        assert_eq!(trim(s), s.trim(), "{:?}", s);
    }
    assert_eq!(trim("  a b  "), "a b");
    assert_eq!(trim("\u{85}x\u{1680}"), "x");
}

#[test]
fn trim_bounds_cut_both_ends() {
    assert_eq!(trim_bounds(&chars_of("  ab ")), (2, 4));
    assert_eq!(trim_bounds(&chars_of("ab")), (0, 2));
    let (lo, hi) = trim_bounds(&chars_of("   "));
    assert_eq!(lo, hi);
    assert_eq!(trim_bounds(&chars_of("")), (0, 0));
}

#[test]
fn parse_usize_is_that_of_the_standard() {
    for s in samples() {
        assert_eq!(parse_usize(s), s.parse::<usize>().ok(), "{:?}", s);
    }
    assert_eq!(parse_usize("42"), Some(42));
    assert_eq!(parse_usize("+42"), Some(42));
    assert_eq!(parse_usize("-42"), None);
    assert_eq!(parse_usize(" 42"), None);
}

#[test]
fn parse_trimmed_usize_reads_over_white_space() {
    for s in samples() {
        assert_eq!(parse_trimmed_usize(s), s.trim().parse::<usize>().ok(), "{:?}", s);
    }
    assert_eq!(parse_trimmed_usize("54000\n"), Some(54000));
    assert_eq!(parse_trimmed_usize(" \t "), None);
}

#[test]
fn usize_in_reads_a_part() {
    let s = chars_of("ab+12cd");
    assert_eq!(usize_in(&s, 2, 5), Some(12));
    assert_eq!(usize_in(&s, 3, 5), Some(12));
    assert_eq!(usize_in(&s, 2, 3), None);
    assert_eq!(usize_in(&s, 3, 3), None);
    assert_eq!(usize_in(&s, 3, 6), None);
}

#[test]
fn parse_i32_is_that_of_the_standard() {
    for s in samples() {
        assert_eq!(parse_i32(s), s.parse::<i32>().ok(), "{:?}", s);
    }
    assert_eq!(parse_i32("-2147483648"), Some(i32::MIN));
    assert_eq!(parse_i32("2147483647"), Some(i32::MAX));
    assert_eq!(parse_i32("2147483648"), None);
    assert_eq!(parse_i32("-7"), Some(-7));
}

#[test]
fn decimal_writes_as_the_standard_does() {
    for n in [0usize, 1, 9, 10, 11, 99, 100, 101, 255, 1000, 65535, usize::MAX] {
        assert_eq!(decimal(n), format!("{}", n));
        assert_eq!(parse_usize(&decimal(n)), Some(n));
    }
}

#[test]
fn signed_decimal_writes_as_the_standard_does() {
    for v in [0i32, 1, -1, 9, -9, 10, -10, 12345, -12345, i32::MAX, i32::MIN] {
        assert_eq!(signed_decimal(v), format!("{}", v));
        assert_eq!(parse_i32(&signed_decimal(v)), Some(v));
    }
}

#[test]
fn contains_finds_a_part_anywhere() {
    let cases = [
        ("", "", true),
        ("abc", "", true),
        ("", "a", false),
        ("abc", "abc", true),
        ("abc", "abcd", false),
        ("abc", "bc", true),
        ("abc", "ab", true),
        ("abc", "ac", false),
        ("aab", "ab", true),
        ("Attribute 'GPUFanControlState' (miner3:2[gpu:0]): 1.", "[gpu:0]): 1", true),
        ("Attribute 'GPUFanControlState' (miner3:2[gpu:0]): 0.", "[gpu:0]): 1", false),
        ("Attribute 'GPUFanControlState' (miner3:2[gpu:10]): 1.", "[gpu:1]): 1", false),
    ];
    for (hay, needle, expected) in cases {
        assert_eq!(contains(&chars_of(hay), &chars_of(needle)), expected, "{:?} {:?}", hay, needle);
        assert_eq!(hay.contains(needle), expected);
    }
}

#[test]
fn remove_char_drops_every_occurrence() {
    for s in ["", "%", "95 %", "%9%5%", "95", "%%"] {
        let plain: String = remove_char(&chars_of(s), '%').into_iter().collect();
        assert_eq!(plain, s.replace("%", ""));
    }
}

#[test]
fn same_text_compares_character_by_character() {
    assert!(same_text("", ""));
    assert!(same_text("nv", "nv"));
    assert!(!same_text("nv", "nvx"));
    assert!(!same_text("nv", "sys"));
    assert!(!same_text("nv", "nV"));
    assert!(!same_text("", "a"));
}

#[test]
fn path_file_name_is_the_last_name() {
    for p in [
        "/sys/class/hwmon/hwmon3",
        "/sys/class/hwmon/hwmon3/",
        "/sys/class/hwmon/hwmon3//",
        "hwmon0",
        "a/b",
        "",
        "/",
        "//",
        "..",
        "a/..",
        ".",
        "/a",
        "a/.b",
        "a/b..",
        "a/...",
    ] {
        let expected = Path::new(p).file_name().and_then(|v| v.to_str()).map(String::from);
        assert_eq!(path_file_name(p), expected, "{:?}", p);
    }
    assert_eq!(path_file_name("/sys/class/hwmon/hwmon3"), Some(String::from("hwmon3")));
    assert_eq!(path_file_name("a/."), None);
}

#[test]
fn join_path_adds_a_name_as_a_path_buffer_does() {
    for (base, name) in [
        ("/sys/class/hwmon", "hwmon3"),
        ("/sys/class/hwmon/", "hwmon3"),
        ("/sys/class/hwmon/hwmon3", "pwm1"),
        ("/sys/class/hwmon/hwmon3", "device/pwm1"),
        ("/sys/class/hwmon/hwmon3", "/tmp/pwm"),
        ("/sys/class/hwmon/hwmon3", ""),
        ("", "pwm1"),
        ("", ""),
        ("/", "a"),
        ("a", "b"),
    ] {
        let mut expected = PathBuf::from(base);
        expected.push(name);
        assert_eq!(join_path(base, name), expected.to_str().unwrap(), "{:?} {:?}", base, name);
    }
    assert_eq!(join_path("/sys/class/hwmon", "hwmon3"), "/sys/class/hwmon/hwmon3");
}
