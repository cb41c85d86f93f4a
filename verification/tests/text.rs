use rpc_gen::text::{is_whitespace_char, split_second, trim};

#[test]
fn white_space_is_what_unicode_says() {
    for code in 0u32..=0x10ffff {
        if let Some(c) = char::from_u32(code) {
            assert_eq!(is_whitespace_char(c), c.is_whitespace(), "for U+{:04X}", code);
        }
    }
}

#[test]
fn there_are_twenty_five_white_space_characters() {
    let count = (0u32..=0x10ffff)
        .filter_map(char::from_u32)
        .filter(|c| is_whitespace_char(*c))
        .count();
    assert_eq!(count, 25);
}

#[test]
fn trim_drops_white_space_at_both_ends() {
    assert_eq!(trim("  hello  "), "hello");
    assert_eq!(trim("hello\n"), "hello");
    assert_eq!(trim("\t\r\n hello world \u{3000}"), "hello world");
    assert_eq!(trim("\u{a0}x\u{2003}"), "x");
}

#[test]
fn trim_keeps_inner_white_space() {
    assert_eq!(trim(" a  b\tc "), "a  b\tc");
}

#[test]
fn trim_of_nothing_but_white_space_is_empty() {
    assert_eq!(trim(""), "");
    assert_eq!(trim(" "), "");
    assert_eq!(trim(" \t\n\r\u{85}\u{2028}"), "");
}

#[test]
fn trim_keeps_a_tight_text() {
    assert_eq!(trim("x"), "x");
    assert_eq!(trim("0.0.0"), "0.0.0");
    assert_eq!(trim("\u{200b}x\u{200b}"), "\u{200b}x\u{200b}");
}

#[test]
fn trim_agrees_with_std() {
    let samples = [
        "",
        " ",
        "a",
        " a",
        "a ",
        " a b ",
        "\n\nline\n\n",
        "\u{1680}ogham\u{1680}",
        "日本語 ",
        "\u{feff}bom ",
        "\u{2000}\u{2001}\u{2002}x\u{2008}\u{2009}\u{200a}",
        "\u{1f600} ",
    ];
    for sample in samples {
        assert_eq!(trim(sample), sample.trim(), "for {:?}", sample);
    }
}

#[test]
fn second_field_stands_between_the_first_two_separators() {
    assert_eq!(split_second("a#b#c", '#'), Some("b"));
    assert_eq!(split_second("a#b", '#'), Some("b"));
    assert_eq!(split_second("a##c", '#'), Some(""));
    assert_eq!(split_second("a#", '#'), Some(""));
    assert_eq!(split_second("#", '#'), Some(""));
    assert_eq!(split_second("#b", '#'), Some("b"));
}

#[test]
fn second_field_is_absent_without_a_separator() {
    assert_eq!(split_second("", '#'), None);
    assert_eq!(split_second("abc", '#'), None);
    assert_eq!(split_second("a@b", '#'), None);
}

#[test]
fn second_field_counts_characters_not_bytes() {
    assert_eq!(split_second("héé@vérsion@x", '@'), Some("vérsion"));
    assert_eq!(split_second("日本@語", '@'), Some("語"));
    assert_eq!(split_second("a日b日c", '日'), Some("b"));
}

#[test]
fn second_field_agrees_with_std_split() {
    let samples = ["", "#", "##", "a#b", "a#b#c#d", "no", "é#ü#ö", "#x", "x#"];
    for sample in samples {
        assert_eq!(split_second(sample, '#'), sample.split('#').nth(1), "for {:?}", sample);
    }
}

#[test]
fn trimming_twice_is_trimming_once() {
    for sample in ["", "  ", " a ", "\ta b\n", "\u{3000}x\u{a0}y\u{2009}"] {
        let once = trim(sample);
        assert_eq!(trim(&once), once, "for {:?}", sample);
        assert!(!once.starts_with(char::is_whitespace), "for {:?}", sample);
        assert!(!once.ends_with(char::is_whitespace), "for {:?}", sample);
    }
}
