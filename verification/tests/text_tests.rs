use mbus_httpd::text::{decimal_string, trim_end_nuls};

#[test]
fn decimal_string_of_small_numbers() {
    assert_eq!(decimal_string(0), "0");
    assert_eq!(decimal_string(1), "1");
    assert_eq!(decimal_string(9), "9");
    assert_eq!(decimal_string(10), "10");
    assert_eq!(decimal_string(26), "26");
    assert_eq!(decimal_string(255), "255");
    assert_eq!(decimal_string(1000), "1000");
    assert_eq!(decimal_string(-1), "-1");
    assert_eq!(decimal_string(-10), "-10");
    assert_eq!(decimal_string(-255), "-255");
}

#[test]
fn decimal_string_agrees_with_the_standard_rendering() {
    for n in -2000i64..=2000 {
        assert_eq!(decimal_string(n), n.to_string());
    }
    for n in [
        i64::MIN,
        i64::MIN + 1,
        i64::MAX,
        i64::MAX - 1,
        i32::MIN as i64,
        i32::MAX as i64,
        1_000_000_007,
        -9_999_999_999,
        100_000,
        -100_000,
    ] {
        assert_eq!(decimal_string(n), n.to_string());
    }
}

#[test]
fn trim_end_nuls_removes_only_trailing_nuls() {
    assert_eq!(trim_end_nuls("packom.net\0"), "packom.net");
    assert_eq!(trim_end_nuls("0x0001\0\0\0"), "0x0001");
    assert_eq!(trim_end_nuls("no terminator"), "no terminator");
    assert_eq!(trim_end_nuls(""), "");
    assert_eq!(trim_end_nuls("\0"), "");
    assert_eq!(trim_end_nuls("\0\0\0"), "");
    assert_eq!(trim_end_nuls("a\0b\0"), "a\0b");
    assert_eq!(trim_end_nuls("\0lead"), "\0lead");
    assert_eq!(trim_end_nuls("trailing space \0"), "trailing space ");
    assert_eq!(trim_end_nuls("line\n\0"), "line\n");
}

#[test]
fn trim_end_nuls_keeps_wide_characters() {
    assert_eq!(trim_end_nuls("M\u{fc}ller\0"), "M\u{fc}ller");
    assert_eq!(trim_end_nuls("\u{1f600}\0\0"), "\u{1f600}");
    assert_eq!(trim_end_nuls("\u{20ac}"), "\u{20ac}");
}

#[test]
fn trim_end_nuls_agrees_with_the_standard_trimming() {
    let samples = [
        "",
        "\0",
        "a",
        "a\0",
        "\0a",
        "\0a\0",
        "ab\0\0",
        "a\0\0b",
        "\0\0",
        "M-Bus Master\0",
        "0x0001\0",
    ];
    for sample in samples {
        assert_eq!(trim_end_nuls(sample), sample.trim_end_matches("\u{0000}"));
    }
}
