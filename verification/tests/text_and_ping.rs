use vizr::ping::{extract_ping_ms, ping_time_token};
use vizr::text::{chars_of, contains_chars, find_chars, same_text, starts_with_chars, trim_str};

fn parse_ms(t: &str) -> Option<u64> {
    t.parse::<f64>().ok().map(|v| v.round() as u64)
}

#[test]
fn trim_removes_unicode_whitespace() {
    assert_eq!(trim_str("  hello world \t\n"), "hello world");
    assert_eq!(trim_str("\u{3000}\u{85}x\u{2028}"), "x");
    assert_eq!(trim_str(" \u{a0} "), "");
    assert_eq!(trim_str(""), "");
    assert_eq!(trim_str("a b"), "a b");
}

#[test]
fn trim_agrees_with_std() {
    let samples = ["\u{1680}mid\u{205f}", "\r\n x \u{200a}", "\u{feff}kept\u{feff}", "  \u{2029}"];
    for s in samples {
        assert_eq!(trim_str(s), s.trim());
    }
}

#[test]
fn whitespace_table_matches_std() {
    let listed = |v: u32| {
        (0x9..=0xD).contains(&v)
            || v == 0x20
            || v == 0x85
            || v == 0xA0
            || v == 0x1680
            || (0x2000..=0x200A).contains(&v)
            || v == 0x2028
            || v == 0x2029
            || v == 0x202F
            || v == 0x205F
            || v == 0x3000
    };
    for v in 0..=0x10FFFFu32 {
        if let Some(c) = char::from_u32(v) {
            assert_eq!(c.is_whitespace(), listed(v), "code point {:x}", v);
        }
    }
}

#[test]
fn substring_search() {
    let hay = chars_of("abcabcd");
    assert_eq!(find_chars(&hay, &chars_of("bc")), Some(1));
    assert_eq!(find_chars(&hay, &chars_of("cd")), Some(5));
    assert_eq!(find_chars(&hay, &chars_of("x")), None);
    assert_eq!(find_chars(&hay, &chars_of("")), Some(0));
    assert_eq!(find_chars(&chars_of("ab"), &chars_of("abc")), None);
    assert!(contains_chars(&hay, "cab"));
    assert!(!contains_chars(&hay, "dd"));
    assert!(starts_with_chars(&hay, "abc"));
    assert!(!starts_with_chars(&hay, "bc"));
    assert!(starts_with_chars(&hay, ""));
    assert!(same_text("é✓", "é✓"));
    assert!(!same_text("ab", "abc"));
    assert!(!same_text("ab", "ac"));
}

#[test]
fn ping_token_cases() {
    let line = "64 bytes from 142.250.1.1: icmp_seq=1 ttl=117 time=14.2 ms";
    assert_eq!(ping_time_token(line), Some("14.2"));
    assert_eq!(ping_time_token("reply time=7.95ms"), Some("7.95"));
    assert_eq!(ping_time_token("time=   3msms extra"), Some("3"));
    assert_eq!(ping_time_token("time=ms"), Some(""));
    assert_eq!(ping_time_token("time=   "), None);
    assert_eq!(ping_time_token("PING google.com (142.250.1.1) 56(84) bytes of data."), None);
    assert_eq!(ping_time_token("a time=1 b time=2"), Some("1"));
}

#[test]
fn extract_ping_ms_rounds_the_reading() {
    let line = "64 bytes from 142.250.1.1: icmp_seq=1 ttl=117 time=14.2 ms";
    assert_eq!(extract_ping_ms(line, &parse_ms), Some(14));
    assert_eq!(extract_ping_ms("time=120.6ms", &parse_ms), Some(121));
    assert_eq!(extract_ping_ms("time=0.5 ms", &parse_ms), Some(1));
    assert_eq!(extract_ping_ms("no marker here", &parse_ms), None);
    assert_eq!(extract_ping_ms("time=ms", &parse_ms), None);
    assert_eq!(extract_ping_ms("time=abc ms", &parse_ms), None);
}
