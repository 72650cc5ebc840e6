use rblx_rich_presence::text::{
    chars_of, decimal, ends_with, parse_u64, replace_all, same_text, slice_bytes,
    slice_from_byte, split_char, starts_with,
};

#[test]
fn parse_u64_accepts_digits_and_plus() {
    assert_eq!(parse_u64("0"), Some(0));
    assert_eq!(parse_u64("1818"), Some(1818));
    assert_eq!(parse_u64("+7"), Some(7));
    assert_eq!(parse_u64("18446744073709551615"), Some(u64::MAX));
}

#[test]
fn parse_u64_refuses() {
    assert_eq!(parse_u64(""), None);
    assert_eq!(parse_u64("+"), None);
    assert_eq!(parse_u64("-1"), None);
    assert_eq!(parse_u64("12a"), None);
    assert_eq!(parse_u64(" 1"), None);
    assert_eq!(parse_u64("18446744073709551616"), None);
}

#[test]
fn parse_u64_agrees_with_std() {
    for s in ["", "+", "0", "007", "+42", "-0", "99999999999999999999", "4294967296", "1 "] {
        assert_eq!(parse_u64(s), s.parse::<u64>().ok(), "{}", s);
    }
}

#[test]
fn decimal_writes_and_reads_back() {
    for n in [0u64, 9, 10, 1818, 1600000000000, u64::MAX] {
        let s = decimal(n);
        assert_eq!(s, n.to_string());
        assert_eq!(parse_u64(&s), Some(n));
    }
}

#[test]
fn split_matches_std() {
    for s in ["", "a", "a+b", "+", "a++b+", "roblox-player:1+launchmode:play"] {
        let mine = split_char(s, '+');
        let std: Vec<String> = s.split('+').map(|x| x.to_string()).collect();
        assert_eq!(mine, std);
    }
}

#[test]
fn replace_matches_std() {
    for (s, p, r) in [("a%26b%26", "%26", "&"), ("%2F%2F", "%2F", "/"), ("aaa", "aa", "b"), ("x", "xy", "z")] {
        assert_eq!(replace_all(s, p, r), s.replace(p, r));
    }
}

#[test]
fn text_predicates() {
    assert!(same_text("abc", "abc"));
    assert!(!same_text("abc", "abd"));
    assert!(starts_with("JoinAsFollower", "Join"));
    assert!(!starts_with("Joi", "Join"));
    assert!(ends_with("abc\" \"%1\"", "\" \"%1\""));
    assert!(!ends_with("%1", "abc%1"));
    assert_eq!(chars_of("héllo"), vec!['h', 'é', 'l', 'l', 'o']);
}

#[test]
fn byte_slicing_as_std() {
    assert_eq!(slice_from_byte("abcdefghijkl", 9), Some("jkl".to_string()));
    assert_eq!(slice_from_byte("abc", 9), None);
    assert_eq!(slice_from_byte("éééé", 1), None);
    assert_eq!(slice_from_byte("éééé", 2), Some("ééé".to_string()));
    assert_eq!(slice_bytes("\"path\" %1", 1, 5), Some("path".to_string()));
    assert_eq!(slice_bytes("abc", 2, 1), None);
    assert_eq!(slice_bytes("aé", 1, 2), None);
}
