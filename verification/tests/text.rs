use docker_native_manager::text::{
    chars_of, contains, copied, decimal, find, forward_slashes, joined, push_text, replace_first,
    rfind, same, starts_with, trim, trim_start_matches, white_space,
};

#[test]
fn white_space_is_that_of_unicode() {
    for c in '\0'..=char::MAX {
        assert_eq!(white_space(c), c.is_whitespace(), "{:?}", c);
    }
}

#[test]
fn trim_takes_both_ends() {
    for s in ["", " ", "a", " a b ", "\t\u{3000}x\u{a0}\n", "\r\n\r\n", "\u{200b}x"] {
        assert_eq!(trim(s), s.trim());
        assert_eq!(trim(trim(s)), trim(s));
    }
}

#[test]
fn leading_copies_are_taken() {
    for s in ["", "ssh://h", "ssh://ssh://h", "ssh:/h", "h ssh://", "ssh://"] {
        assert_eq!(trim_start_matches(s, "ssh://"), s.trim_start_matches("ssh://"));
    }
    assert_eq!(trim_start_matches("ssh://ssh://h", "ssh://"), "h");
}

#[test]
fn searches() {
    assert!(contains("Permission denied (publickey).", "publickey"));
    assert!(!contains("publicke", "publickey"));
    assert!(contains("", ""));
    assert!(starts_with("tcp://h", "tcp://"));
    assert!(!starts_with("tcp:/", "tcp://"));
    assert!(starts_with("x", ""));
    assert_eq!(find("\u{e4}@b@c", '@'), Some(1));
    assert_eq!(rfind("\u{e4}@b@c", '@'), Some(3));
    assert_eq!(find("abc", '@'), None);
    assert_eq!(rfind("", '@'), None);
}

#[test]
fn replacements() {
    for (s, pattern, with) in [("C:C:", "C:", "/mnt/c"), ("abc", "x", "y"), ("aab", "ab", ""), ("", "", "z")] {
        assert_eq!(replace_first(s, pattern, with), s.replacen(pattern, with, 1));
    }
    assert_eq!(forward_slashes("a\\b\\\u{fc}/c"), "a/b/\u{fc}/c");
}

#[test]
fn numbers_in_decimal() {
    for n in [0, 7, 9, 10, 99, 100, 23456, 65535, 99999, u32::MAX] {
        assert_eq!(decimal(n), n.to_string());
    }
}

#[test]
fn pieces() {
    assert_eq!(chars_of("a\u{1f433}"), vec!['a', '\u{1f433}']);
    assert!(same("ab", "ab"));
    assert!(!same("ab", "abc"));
    assert_eq!(joined("ab", "c"), "abc");
    let mut list = vec!["a".to_string()];
    push_text(&mut list, "b");
    assert_eq!(copied(&list), vec!["a".to_string(), "b".to_string()]);
}
