use pl_str::PlSmallStr;
use std::cmp::Ordering;
use std::collections::{BTreeSet, HashSet};

#[test]
fn from_str_reads_back_the_same_text() {
    for s in ["", "a", "hello", "héllo wörld", "日本語", "emoji 🎉", "tab\tnewline\n"] {
        assert_eq!(PlSmallStr::from_str(s).as_str(), s);
        assert_eq!(PlSmallStr::from_static("static").as_str(), "static");
    }
}

#[test]
fn clone_is_equal_and_shares_the_buffer() {
    let a = PlSmallStr::from_str("some fairly long column name");
    let b = a.clone();
    assert!(a == b);
    assert!(b.shares_buffer_with(&a));
    let c = PlSmallStr::from_str("some fairly long column name");
    assert!(a == c);
    assert!(!c.shares_buffer_with(&a));
    let d = PlSmallStr::from(&a);
    assert!(d.shares_buffer_with(&a));
    let e = PlSmallStr::from(&&a);
    assert!(e.shares_buffer_with(&a));
}

#[test]
fn equality_is_by_content_whatever_the_construction() {
    let s = String::from("label");
    let from_static = PlSmallStr::from_static("label");
    let from_str = PlSmallStr::from_str("label");
    let from_string = PlSmallStr::from_string(s.clone());
    let from_ref_string = PlSmallStr::from(&s);
    let from_ref_ref_str = PlSmallStr::from(&"label");
    let into: PlSmallStr = "label".into();
    for v in [&from_str, &from_string, &from_ref_string, &from_ref_ref_str, &into] {
        assert!(from_static == *v);
    }
    assert!(from_str != PlSmallStr::from_str("labels"));
    assert!(from_str != PlSmallStr::from_str("Label"));
    assert!(from_str == "label");
    assert!(from_str == *"label");
    assert!(from_str == s);
    assert!("label" == from_str);
    assert!(s == from_str);
    assert!(from_str == &s);
    assert!(&s == from_str);
    assert!(&"label" == from_str);
    assert!(&"lab" != from_str);
    assert!(from_str == &from_static);
    assert!(from_str != &PlSmallStr::from_str("lab"));
    assert!(from_str == &"label");
    assert!(from_str != &"lab");
    assert!(from_str != "lab");
    assert!(PlSmallStr::from_str("") == "");
}

#[test]
fn order_matches_plain_text_order() {
    let words = ["", "a", "ab", "b", "Z", "z", "é", "日", "abc", "aa"];
    for x in words {
        for y in words {
            let a = PlSmallStr::from_str(x);
            let b = PlSmallStr::from_str(y);
            assert_eq!(a.partial_cmp(&b), Some(x.cmp(y)));
            assert_eq!(a.cmp(&b), x.cmp(y));
            assert_eq!(a < b, x < y);
            assert_eq!(a <= b, x <= y);
        }
    }
    assert_eq!(
        PlSmallStr::from_str("ab").partial_cmp(&PlSmallStr::from_str("abc")),
        Some(Ordering::Less)
    );
    assert_eq!(
        PlSmallStr::from_str("é").partial_cmp(&PlSmallStr::from_str("z")),
        Some(Ordering::Greater)
    );
    let mut v: Vec<PlSmallStr> = words.iter().map(|w| PlSmallStr::from_str(w)).collect();
    v.sort();
    let mut plain: Vec<&str> = words.to_vec();
    plain.sort();
    let sorted: Vec<&str> = v.iter().map(|s| s.as_str()).collect();
    assert_eq!(sorted, plain);
}

#[test]
fn order_is_transitive_on_samples() {
    let a = PlSmallStr::from_str("apple");
    let b = PlSmallStr::from_str("apricot");
    let c = PlSmallStr::from_str("banana");
    assert!(a <= b && b <= c);
    assert!(a <= c);
}

#[test]
fn owned_string_round_trip() {
    for s in ["", "x", "round trip", "ünïcödé"] {
        let owned = String::from(s);
        let back = PlSmallStr::from_string(owned.clone()).into_string();
        assert_eq!(back, owned);
    }
}

#[test]
fn into_string_leaves_other_owners_untouched() {
    let a = PlSmallStr::from_str("shared");
    let b = a.clone();
    let mut owned = a.into_string();
    owned.push('!');
    assert_eq!(owned, "shared!");
    assert_eq!(b.as_str(), "shared");
}

#[test]
fn default_is_the_empty_string() {
    assert_eq!(PlSmallStr::const_default().as_str(), "");
    assert!(PlSmallStr::const_default() == PlSmallStr::from_str(""));
    let d: PlSmallStr = Default::default();
    assert_eq!(d.as_str(), "");
    assert!(d == PlSmallStr::from_str(""));
}

#[test]
fn debug_quotes_and_display_is_raw() {
    let s = PlSmallStr::from_str("abc");
    assert_eq!(s.to_debug_string(), "\"abc\"");
    assert_eq!(s.to_display_string(), "abc");
    let t = PlSmallStr::from_str("a\"b\n");
    assert_eq!(t.to_debug_string(), format!("{:?}", "a\"b\n"));
    assert_eq!(t.to_debug_string(), "\"a\\\"b\\n\"");
    assert_eq!(t.to_display_string(), "a\"b\n");
}

#[test]
fn clone_outlives_its_source() {
    let a = PlSmallStr::from_str("hello");
    let b = a.clone();
    assert!(a == b);
    assert_eq!(a.as_str(), "hello");
    assert_eq!(b.as_str(), "hello");
    drop(a);
    assert_eq!(b.as_str(), "hello");
    assert_eq!(b.len(), 5);
}

#[test]
fn formatted_text_builds_an_equal_string() {
    let s = PlSmallStr::from_string(format!("{}-{}", 1, 2));
    assert!(s == PlSmallStr::from_str("1-2"));
}

#[test]
fn hashing_follows_content() {
    let mut set: HashSet<PlSmallStr> = HashSet::new();
    set.insert(PlSmallStr::from_str("key"));
    set.insert(PlSmallStr::from_string(String::from("key")));
    set.insert(PlSmallStr::from_static("other"));
    assert_eq!(set.len(), 2);
    assert!(set.contains("key"));
    assert!(!set.contains("missing"));
    let tree: BTreeSet<PlSmallStr> = ["b", "a", "b"].iter().map(|s| PlSmallStr::from_str(s)).collect();
    assert_eq!(tree.len(), 2);
    assert!(tree.contains("a"));
}

#[test]
fn borrows_as_str() {
    let s = PlSmallStr::from_str("column_a");
    assert!(s.starts_with("column"));
    let r: &str = s.as_ref();
    assert_eq!(r, "column_a");
    assert_eq!(&*s, "column_a");
    let b: &str = std::borrow::Borrow::borrow(&s);
    assert_eq!(b, "column_a");
    let e = PlSmallStr::from_str("");
    let eb: &str = std::borrow::Borrow::borrow(&e);
    assert_eq!(eb, "");
}
