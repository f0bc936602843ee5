use gpttools::text::{
    chars_of, char_is_space, find_char, has_prefix, has_suffix, has_text, is_blank, lower_between,
    push_decimal, same_ignore_case, str_eq, str_eq_ignore_case, str_starts_with,
    strip_trailing_len, text_between, text_of, to_lower_char, trim_range, trim_text,
};

fn chars(s: &str) -> Vec<char> {
    s.chars().collect()
}

#[test]
fn chars_and_text_round_trip() {
    assert_eq!(chars_of("héllo"), chars("héllo"));
    assert_eq!(text_of(&chars("héllo")), "héllo");
    assert_eq!(text_between(&chars("abcdef"), 2, 4), "cd");
    assert_eq!(text_between(&chars("abcdef"), 3, 3), "");
}

#[test]
fn trimming_removes_unicode_white_space() {
    assert_eq!(trim_text("  a b \t\n"), "a b");
    assert_eq!(trim_text("\u{3000}x\u{a0}"), "x");
    assert_eq!(trim_text("   "), "");
    assert_eq!(trim_text(""), "");
    assert_eq!(trim_range(&chars("  ab ")), (2, 4));
    assert!(is_blank(" \r\n"));
    assert!(!is_blank(" . "));
    assert!(char_is_space('\u{2028}'));
    assert!(!char_is_space('\u{200b}'));
}

#[test]
fn case_folding_is_ascii_only() {
    assert_eq!(to_lower_char('A'), 'a');
    assert_eq!(to_lower_char('Z'), 'z');
    assert_eq!(to_lower_char('['), '[');
    assert_eq!(to_lower_char('É'), 'É');
    assert_eq!(lower_between(&chars("AbC-D"), 1, 5), chars("bc-d"));
    assert!(str_eq_ignore_case("Content-TYPE", "content-type"));
    assert!(!str_eq_ignore_case("content-type", "content-typ"));
    assert!(!str_eq_ignore_case("É", "é"));
    assert!(same_ignore_case(&chars("Host"), &chars("hOST")));
}

#[test]
fn prefixes_suffixes_and_parts() {
    assert!(str_eq("abc", "abc"));
    assert!(!str_eq("abc", "abd"));
    assert!(str_starts_with("/auth/callback?x", "/auth/callback"));
    assert!(!str_starts_with("/auth", "/auth/callback"));
    assert!(has_prefix(&chars("abc"), &chars("")));
    assert!(has_suffix(&chars("a/v1"), &chars("/v1")));
    assert!(!has_suffix(&chars("v1"), &chars("/v1")));
    assert!(has_text(&chars("x/backend-api/y"), &chars("/backend-api")));
    assert!(has_text(&chars("abc"), &chars("abc")));
    assert!(has_text(&chars("abc"), &chars("")));
    assert!(!has_text(&chars("ab"), &chars("abc")));
    assert_eq!(strip_trailing_len(&chars("a//"), '/'), 1);
    assert_eq!(strip_trailing_len(&chars("///"), '/'), 0);
    assert_eq!(find_char(&chars("a?b?c"), '?', 0), 1);
    assert_eq!(find_char(&chars("a?b?c"), '?', 2), 3);
    assert_eq!(find_char(&chars("abc"), '?', 0), 3);
}

#[test]
fn decimal_rendering() {
    let mut out = String::from("n=");
    push_decimal(&mut out, 0);
    assert_eq!(out, "n=0");
    let mut out = String::new();
    push_decimal(&mut out, 9);
    out.push(',');
    push_decimal(&mut out, 10);
    out.push(',');
    push_decimal(&mut out, 1234567890);
    assert_eq!(out, "9,10,1234567890");
    let mut out = String::new();
    push_decimal(&mut out, usize::MAX);
    assert_eq!(out, usize::MAX.to_string());
}
