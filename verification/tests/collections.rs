//! Maps, sets, rings and texts.
use periclaw::keyed::{StrMap, StrSet};
use periclaw::ring::Ring;
use periclaw::text::{
    comes_before, contains, ellipsize, join, split_lines, split_words, strip_prefix, trim, trim_end,
};

#[test]
fn maps_keep_the_order_of_their_keys() {
    let mut m: StrMap<u64> = StrMap::new();
    m.insert("b".into(), 1);
    m.insert("a".into(), 2);
    m.insert("b".into(), 3);
    assert_eq!(m.len(), 2);
    assert_eq!(m.key_at(0), "b");
    assert_eq!(*m.value_at(0), 3);
    assert_eq!(m.get("a"), Some(&2));
    assert_eq!(m.remove("b"), Some(3));
    assert_eq!(m.remove("b"), None);
    assert_eq!(m.key_at(0), "a");
    m.clear();
    assert!(m.is_empty());
}

#[test]
fn sets_hold_each_member_once() {
    let mut s = StrSet::new();
    assert!(s.insert("x".into()));
    assert!(!s.insert("x".into()));
    assert_eq!(s.len(), 1);
    assert!(s.remove("x"));
    assert!(!s.remove("x"));
}

#[test]
fn rings_drop_the_oldest() {
    let mut r: Ring<u64> = Ring::new();
    for i in 0..5 {
        r.push(i, 3);
    }
    assert_eq!((r.len(), *r.at(0), *r.at(2)), (3, 2, 4));
    r.extend(vec![10, 11], 3);
    assert_eq!((*r.at(0), *r.at(2)), (4, 11));
}

#[test]
fn texts_behave_like_std() {
    for s in ["", " a b ", "x\u{a0}y\u{3000}", "\n\r\n a\r\n", "é ü\t\u{85}z"] {
        assert_eq!(trim(s), s.trim());
        assert_eq!(trim_end(s), s.trim_end());
        assert_eq!(split_words(s), s.split_whitespace().collect::<Vec<_>>());
        assert_eq!(split_lines(s), s.lines().collect::<Vec<_>>());
    }
    for (a, b) in [("", "a"), ("a", "ab"), ("b", "ab"), ("é", "z"), ("😀", "\u{ffff}"), ("a", "a")] {
        assert_eq!(comes_before(a, b), a < b, "{a} {b}");
        assert_eq!(comes_before(b, a), b < a, "{b} {a}");
    }
    assert_eq!(strip_prefix("agent:x", "agent:").as_deref(), Some("x"));
    assert!(contains("hello", "ell") && !contains("hello", "elo"));
    assert_eq!(join(&vec!["a".into(), "b".into()], "-"), "a-b");
    assert_eq!(ellipsize("abc", 2), "a…");
}
