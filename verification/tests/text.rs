use c64_assembler::text::{add_decimal, is_text, join, parse_number};

#[test]
fn lines_are_joined_by_line_feeds() {
    assert_eq!("", join(&vec![]));
    assert_eq!("one", join(&vec!["one".to_string()]));
    assert_eq!("one\ntwo\n\nfour", join(&vec![
        "one".to_string(),
        "two".to_string(),
        "".to_string(),
        "four".to_string(),
    ]));
    assert_eq!("\n", join(&vec!["".to_string(), "".to_string()]));
}

#[test]
fn texts_are_compared() {
    assert!(is_text(&"lda".to_string(), "lda"));
    assert!(!is_text(&"lda".to_string(), "ldx"));
    assert!(!is_text(&"lda".to_string(), "ld"));
    assert!(is_text(&String::new(), ""));
}

#[test]
fn numbers_are_parsed_as_the_standard_library_does() {
    let texts = [
        "0", "7", "08", "10", "255", "256", "1000", "65535", "65536", "65540", "99999", "655350",
        "0000000000000000000065535", "+5", "+0", "+", "", "-", "-0", "-5", "++5", "5+", " 5", "5 ",
        "0x10", "1_000", "12a", "a12", "１２", "٣", "4294967296", "18446744073709551616",
        "4294967301", "429496729600001",
    ];
    for text in texts {
        assert_eq!(text.parse::<u16>().ok(), parse_number(text), "{text:?}");
    }
    for number in (0..=u16::MAX).step_by(257).chain([u16::MAX]) {
        assert_eq!(Some(number), parse_number(&number.to_string()));
    }
}

#[test]
fn numbers_are_written_in_decimal_digits() {
    for number in [0u16, 1, 9, 10, 11, 99, 100, 101, 999, 1000, 2062, 9999, 10000, 12345, 65535] {
        let mut text = "offset ".to_string();
        add_decimal(&mut text, number);
        assert_eq!(format!("offset {number}"), text);
    }
}
