use ustx::text::{chars_of, contains_char, count_char, is_white_space, push_decimal, trim};

#[test]
fn white_space_is_the_unicode_property() {
    for code in 0u32..=0x10FFFF {
        if let Some(c) = char::from_u32(code) {
            assert_eq!(is_white_space(c), c.is_whitespace(), "U+{:04X}", code);
        }
    }
}

#[test]
fn trim_removes_white_space_at_both_ends() {
    let samples = [
        "",
        " ",
        "a",
        " a",
        "a ",
        "  a b  ",
        "\t\n 0.7 \r\n",
        "\u{3000}x\u{2003}y\u{a0}",
        "   ",
        "\u{feff}a",
        "\u{200b}a\u{200b}",
        "é ",
        " \u{3042}",
    ];
    for sample in samples {
        assert_eq!(trim(sample), sample.trim(), "{:?}", sample);
    }
}

#[test]
fn characters_of_a_text() {
    let text = "a.\u{3042}+z";
    assert_eq!(chars_of(text), vec!['a', '.', '\u{3042}', '+', 'z']);
    assert_eq!(chars_of(""), Vec::<char>::new());
}

#[test]
fn counting_and_finding_characters() {
    let chars = chars_of("1.2.3-rc.1");
    assert_eq!(count_char(&chars, '.'), 3);
    assert_eq!(count_char(&chars, '-'), 1);
    assert_eq!(count_char(&chars, '+'), 0);
    assert!(contains_char(&chars, '-'));
    assert!(!contains_char(&chars, '+'));
    assert!(contains_char(&chars, '1'));
    let none = chars_of("");
    assert_eq!(count_char(&none, '.'), 0);
    assert!(!contains_char(&none, '.'));
}

#[test]
fn decimal_numerals() {
    let numbers = [
        0u64,
        1,
        9,
        10,
        11,
        99,
        100,
        101,
        1000,
        123456789,
        u64::MAX / 10,
        u64::MAX - 1,
        u64::MAX,
    ];
    for n in numbers {
        let mut out = String::from("v");
        push_decimal(&mut out, n);
        assert_eq!(out, format!("v{}", n));
    }
}
