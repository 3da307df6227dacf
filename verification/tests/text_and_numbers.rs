use save_voucher::cookie::extract_csrftoken;
use save_voucher::decimal::{format_i64, format_padded, parse_i64, parse_promotion_id};
use save_voucher::text::trim;

#[test]
fn csrftoken_between_other_cookies() {
    assert_eq!(extract_csrftoken("SPC_F=abc; csrftoken=Tok3n; SPC_U=9"), "Tok3n");
}

#[test]
fn csrftoken_missing_key_gives_empty() {
    assert_eq!(extract_csrftoken("SPC_F=abc; SPC_U=9;"), "");
}

#[test]
fn csrftoken_without_closing_semicolon_gives_empty() {
    assert_eq!(extract_csrftoken("SPC_F=abc; csrftoken=Tok3n"), "");
}

#[test]
fn csrftoken_first_entry_wins() {
    assert_eq!(extract_csrftoken("csrftoken=one;csrftoken=two;"), "one");
}

#[test]
fn csrftoken_empty_value() {
    assert_eq!(extract_csrftoken("a=1; csrftoken=; b=2"), "");
}

#[test]
fn csrftoken_after_non_ascii_text() {
    assert_eq!(extract_csrftoken("nama=Bäckerei✓; csrftoken=ü-x;"), "ü-x");
}

#[test]
fn csrftoken_matches_byte_search() {
    let cookies = [
        "csrftoken=abc;",
        "x=1;csrftoken=abc;y=2",
        "csrftoken=",
        "csrftoken=abc",
        "csrftoken=a;b;c",
        "ccsrftoken=q;",
        "é;csrftoken=日本;",
        "",
        ";",
    ];
    for c in cookies.iter() {
        let mut expected = String::new();
        if let Some(i) = c.find("csrftoken=") {
            let start = i + "csrftoken=".len();
            if let Some(end) = c[start..].find(';') {
                expected = c[start..start + end].to_string();
            }
        }
        assert_eq!(extract_csrftoken(c), expected, "cookie {:?}", c);
    }
}

#[test]
fn trim_matches_std() {
    let texts = [
        "", " ", "  a b  ", "\n12345\n", "\t\r\n x \u{3000}", "\u{85}y\u{a0}", "\u{2000}\u{200a}",
        "z\u{205f}", "\u{1680}\u{2028}\u{2029}\u{202f}w", "\u{200b}keep\u{200b}",
    ];
    for t in texts.iter() {
        assert_eq!(trim(t), t.trim(), "text {:?}", t);
    }
}

#[test]
fn parse_i64_matches_std() {
    let texts = [
        "0", "7", "-7", "+7", "007", "-0", "", "+", "-", "--1", "+-1", "1 ", " 1", "1_000", "12a",
        "9223372036854775807", "9223372036854775808", "-9223372036854775808",
        "-9223372036854775809", "99999999999999999999999", "٣", "856793882394624",
    ];
    for t in texts.iter() {
        assert_eq!(parse_i64(t), t.parse::<i64>().ok(), "text {:?}", t);
    }
}

#[test]
fn promotion_id_is_trimmed_first() {
    assert_eq!(parse_promotion_id("856793882394624\n"), Some(856793882394624));
    assert_eq!(parse_promotion_id("  -12\t"), Some(-12));
    assert_eq!(parse_promotion_id("12 34"), None);
    assert_eq!(parse_promotion_id("\n"), None);
}

#[test]
fn format_i64_matches_display() {
    let values = [0i64, 1, 9, 10, -1, -10, 123456789, i64::MAX, i64::MIN, 856793882394624];
    for v in values.iter() {
        assert_eq!(format_i64(*v), v.to_string());
    }
}

#[test]
fn format_padded_matches_zero_padding() {
    let values = [0i64, 5, -5, 42, -42, 123, -123, 1000, i64::MIN, i64::MAX];
    for v in values.iter() {
        assert_eq!(format_padded(*v, 2), format!("{:02}", v));
        assert_eq!(format_padded(*v, 3), format!("{:03}", v));
        assert_eq!(format_padded(*v, 0), format!("{:00}", v));
    }
}

#[test]
fn written_numbers_read_back() {
    let values = [0i64, -1, 42, i64::MAX, i64::MIN, 856793882394624];
    for v in values.iter() {
        assert_eq!(parse_promotion_id(&format_i64(*v)), Some(*v));
    }
}
