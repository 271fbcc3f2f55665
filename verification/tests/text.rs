use claide::text::{replace_all, same_text, u64_to_decimal};

#[test]
fn test_decimal() {
    assert_eq!(u64_to_decimal(0), "0");
    assert_eq!(u64_to_decimal(7), "7");
    assert_eq!(u64_to_decimal(10), "10");
    assert_eq!(u64_to_decimal(1234567890), "1234567890");
    assert_eq!(u64_to_decimal(u64::MAX), "18446744073709551615");
}

#[test]
fn test_replace_all() {
    assert_eq!(replace_all("~/.zeroclaw/workspace", ".zeroclaw", ".claide"), "~/.claide/workspace");
    assert_eq!(replace_all("aaaa", "aa", "b"), "bb");
    assert_eq!(replace_all("aaa", "aa", "b"), "ba");
    assert_eq!(replace_all("", "x", "y"), "");
    assert_eq!(replace_all("héllo wörld", "ö", "o"), "héllo world");
    assert_eq!(replace_all("abc", "abcd", "z"), "abc");
    for s in ["x.zeroclawy.zeroclaw", "..zeroclaw.zero", "plain"] {
        assert_eq!(replace_all(s, ".zeroclaw", ".claide"), s.replace(".zeroclaw", ".claide"));
    }
}

#[test]
fn test_same_text() {
    assert!(same_text("abc", "abc"));
    assert!(!same_text("abc", "abd"));
    assert!(!same_text("", "a"));
}

#[test]
fn test_replace_all_empty_pattern() {
    assert_eq!(replace_all("abc", "", "x"), "abc".replace("", "x"));
    assert_eq!(replace_all("", "", "x"), "x");
    assert_eq!(replace_all("é", "", "-"), "-é-");
}
