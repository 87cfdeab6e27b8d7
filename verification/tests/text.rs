use port_sync::text::{
    chars_of, decimal_text, eq_ignore_ascii_case, parse_unsigned, text_of, trim_matches,
};

#[test]
fn decimal_text_writes_numbers_without_leading_zeros() {
    assert_eq!(decimal_text(0), "0");
    assert_eq!(decimal_text(7), "7");
    assert_eq!(decimal_text(10), "10");
    assert_eq!(decimal_text(51413), "51413");
    assert_eq!(decimal_text(65535), "65535");
    assert_eq!(decimal_text(u128::MAX), "340282366920938463463374607431768211455");
}

#[test]
fn decimal_text_is_what_std_prints() {
    for n in [0u128, 1, 9, 10, 99, 100, 8080, 8112, 18446744073709551615] {
        assert_eq!(decimal_text(n), n.to_string());
    }
}

#[test]
fn parse_unsigned_reads_digits_with_an_optional_plus() {
    assert_eq!(parse_unsigned("51413", 65535), Some(51413));
    assert_eq!(parse_unsigned("+8080", 65535), Some(8080));
    assert_eq!(parse_unsigned("0", 65535), Some(0));
    assert_eq!(parse_unsigned("007", 65535), Some(7));
    assert_eq!(parse_unsigned("65535", 65535), Some(65535));
}

#[test]
fn parse_unsigned_rejects_what_is_no_number_or_too_large() {
    assert_eq!(parse_unsigned("", 65535), None);
    assert_eq!(parse_unsigned("+", 65535), None);
    assert_eq!(parse_unsigned("-1", 65535), None);
    assert_eq!(parse_unsigned("12a", 65535), None);
    assert_eq!(parse_unsigned(" 12", 65535), None);
    assert_eq!(parse_unsigned("12\n", 65535), None);
    assert_eq!(parse_unsigned("65536", 65535), None);
    assert_eq!(parse_unsigned("99999999999999999999999999999999999999999999", u128::MAX), None);
    assert_eq!(parse_unsigned("340282366920938463463374607431768211456", u128::MAX), None);
}

#[test]
fn parse_unsigned_agrees_with_std_on_u16() {
    for text in ["0", "1", "+1", "65535", "65536", "", "+", "-0", "1 ", "0x10", "00065535", "٣"] {
        let expected = text.parse::<u16>().ok().map(u128::from);
        assert_eq!(parse_unsigned(text, 65535), expected, "{text:?}");
    }
}

#[test]
fn decimal_text_reads_back() {
    for n in [0u128, 5, 10, 65535, 1 << 64, u128::MAX] {
        assert_eq!(parse_unsigned(&decimal_text(n), u128::MAX), Some(n));
    }
}

#[test]
fn trim_matches_drops_the_runs_at_both_ends_only() {
    assert_eq!(trim_matches("51413\n", '\n'), "51413");
    assert_eq!(trim_matches("\n\n51413\n\n\n", '\n'), "51413");
    assert_eq!(trim_matches("5\n1", '\n'), "5\n1");
    assert_eq!(trim_matches("\n", '\n'), "");
    assert_eq!(trim_matches("", '\n'), "");
    assert_eq!(trim_matches("51413\r\n", '\n'), "51413\r");
    assert_eq!(trim_matches(" 51413 ", '\n'), " 51413 ");
}

#[test]
fn trim_matches_is_what_std_does() {
    for text in ["", "\n", "a", "\na", "a\n", "\n\na\nb\n\n", "é\n"] {
        assert_eq!(trim_matches(text, '\n'), text.trim_matches('\n'));
    }
}

#[test]
fn eq_ignore_ascii_case_compares_letters_only_by_name() {
    assert!(eq_ignore_ascii_case("QBittorrent", "qbittorrent"));
    assert!(eq_ignore_ascii_case("DELUGE", "deluge"));
    assert!(eq_ignore_ascii_case("", ""));
    assert!(!eq_ignore_ascii_case("deluge", "deluge "));
    assert!(!eq_ignore_ascii_case("deluge", "delugf"));
    assert!(!eq_ignore_ascii_case("@", "`"));
    assert!(!eq_ignore_ascii_case("[", "{"));
    assert!(!eq_ignore_ascii_case("É", "é"));
}

#[test]
fn chars_and_text_are_inverse() {
    let chars = chars_of("pörté");
    assert_eq!(chars, vec!['p', 'ö', 'r', 't', 'é']);
    assert_eq!(text_of(&chars, 0, chars.len()), "pörté");
    assert_eq!(text_of(&chars, 1, 3), "ör");
    assert_eq!(text_of(&chars, 2, 2), "");
}
