use gelly::text::{
    decimal_int_text, decimal_text, followed_by, is_white_space, join, lower_hex_text, same, split_genres,
    trim, trim_end_slashes, trim_end_str, trim_start_slashes,
};

#[test]
fn white_space_is_what_the_standard_library_says() {
    for code in 0..=0x10ffffu32 {
        if let Some(c) = char::from_u32(code) {
            assert_eq!(is_white_space(c), c.is_whitespace());
        }
    }
}

#[test]
fn texts_are_trimmed() {
    for s in ["", " ", "a", " a ", "\t a b \n", "\u{3000}x\u{a0}", "\u{e9} "] {
        assert_eq!(trim(s), s.trim());
    }
}

#[test]
fn slashes_are_trimmed() {
    for s in ["", "/", "//", "a/", "/a", "//a//", "a/b", "\u{e9}//"] {
        assert_eq!(trim_end_slashes(s), s.trim_end_matches('/'));
        assert_eq!(trim_start_slashes(s), s.trim_start_matches('/'));
    }
}

#[test]
fn suffixes_are_trimmed() {
    for s in ["", ".view", "ping", "ping.view", "ping.view.view", "ping.vie", "\u{e9}.view"] {
        assert_eq!(trim_end_str(s, ".view"), s.trim_end_matches(".view"));
    }
}

#[test]
fn numbers_are_written_in_decimal() {
    for n in [0u64, 1, 9, 10, 99, 100, 250, 10_000_000, u64::MAX] {
        assert_eq!(decimal_text(n), n.to_string());
    }
    for i in [0i32, 7, -7, 10, -10, i32::MAX, i32::MIN] {
        assert_eq!(decimal_int_text(i), i.to_string());
    }
}

#[test]
fn bytes_are_written_in_hexadecimal() {
    assert_eq!(lower_hex_text(&[]), "");
    assert_eq!(lower_hex_text(&[0, 1, 15, 16, 171, 255]), "00010f10abff");
}

#[test]
fn texts_are_joined() {
    let parts: Vec<String> = vec!["a".to_string(), "".to_string(), "c".to_string()];
    assert_eq!(join(&parts, ","), "a,,c");
    assert_eq!(join(&parts[..1], ","), "a");
    assert_eq!(join(&[], ","), "");
    assert_eq!(followed_by("ab", "c"), "abc");
    assert!(same("ab", "ab"));
    assert!(!same("ab", "abc"));
    assert!(!same("ab", "ac"));
}

#[test]
fn genres_are_split() {
    for s in ["", "rock", "rock,pop", ",", "rock; pop/jazz,", "a//b", "\u{e9};\u{e8}"] {
        let expected: Vec<&str> = s.split(&[',', ';', '/']).collect();
        assert_eq!(split_genres(s), expected);
    }
}
