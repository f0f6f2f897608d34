use stellar_tipjar::text::{chars_of, contains_exec, find_from_exec, join_strings, lines_of, replace_all};

#[test]
fn replace_matches_std() {
    for (s, from, to) in [
        ("aaa", "aa", "b"),
        ("abcabc", "bc", "X"),
        ("", "x", "y"),
        ("héllo wörld", "ö", "oe"),
        ("a  b   c", "  ", " "),
    ] {
        assert_eq!(replace_all(s, from, to), s.replace(from, to));
    }
}

#[test]
fn lines_match_std() {
    for s in ["", "a", "a\n", "a\r\nb", "a\rb\n\nc\r", "\n\n", "x\r"] {
        let ours = lines_of(s);
        let theirs: Vec<&str> = s.lines().collect();
        assert_eq!(ours, theirs);
    }
}

#[test]
fn join_matches_std() {
    let parts = vec!["a".to_string(), "".to_string(), "c".to_string()];
    assert_eq!(join_strings(&parts, "\n"), parts.join("\n"));
    assert_eq!(join_strings(&vec![], ","), "");
}

#[test]
fn find_and_contains() {
    let s = chars_of("Seq Scan on tips");
    let p = chars_of("Scan");
    assert_eq!(find_from_exec(&s, &p, 0), Some(4));
    assert_eq!(find_from_exec(&s, &p, 5), None);
    assert!(contains_exec(&s, &p));
    assert!(!contains_exec(&s, &chars_of("scan")));
}

use stellar_tipjar::keyed::KeyedMap;

#[test]
fn keyed_map_holds_latest_value_per_key() {
    let mut m: KeyedMap<u32> = KeyedMap::new();
    assert_eq!(m.get("a"), None);
    m.insert("a", 1);
    m.insert("b", 2);
    m.insert("a", 3);
    assert_eq!(m.get("a"), Some(&3));
    assert_eq!(m.get("b"), Some(&2));
    assert_eq!(m.get("c"), None);
}
