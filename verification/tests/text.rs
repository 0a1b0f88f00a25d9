use loopback_oauth::text::{chars_of, decimal_text, text_eq, trim};

#[test]
fn trim_removes_ascii_white_space_at_both_ends() {
    assert_eq!(trim("  abc \n"), "abc");
    assert_eq!(trim("\t\r\nclient-id\t"), "client-id");
}

#[test]
fn trim_keeps_inner_white_space() {
    assert_eq!(trim(" a b  c "), "a b  c");
}

#[test]
fn trim_removes_unicode_white_space() {
    assert_eq!(trim("\u{a0}\u{3000}id\u{2003}"), "id");
}

#[test]
fn trim_of_blank_text_is_empty() {
    assert_eq!(trim(""), "");
    assert_eq!(trim(" \t\n "), "");
}

#[test]
fn trim_agrees_with_the_standard_library() {
    let samples = [
        "",
        "x",
        " x",
        "x ",
        "  \u{85}x y\u{2028} ",
        "\u{feff}x",
        "śćż ",
        "\u{200b}x\u{200b}",
    ];
    for sample in samples {
        assert_eq!(trim(sample), sample.trim());
    }
}

#[test]
fn chars_of_lists_every_character() {
    assert_eq!(chars_of("aé€"), vec!['a', 'é', '€']);
    assert_eq!(chars_of(""), Vec::<char>::new());
}

#[test]
fn decimal_text_writes_plain_numerals() {
    assert_eq!(decimal_text(0), "0");
    assert_eq!(decimal_text(7), "7");
    assert_eq!(decimal_text(80), "80");
    assert_eq!(decimal_text(443), "443");
    assert_eq!(decimal_text(8080), "8080");
    assert_eq!(decimal_text(65535), "65535");
}

#[test]
fn decimal_text_agrees_with_formatting() {
    let mut n: u16 = 0;
    loop {
        assert_eq!(decimal_text(n), format!("{}", n));
        if n > 65535 - 97 {
            break;
        }
        n += 97;
    }
}

#[test]
fn text_eq_compares_characters() {
    assert!(text_eq("http", "http"));
    assert!(!text_eq("http", "https"));
    assert!(!text_eq("http", "HTTP"));
    assert!(text_eq("", ""));
}
