use rplayer::text::{
    chars_of, contains_chars, ends_with_chars, is_blank, is_white_space_char, push_decimal,
    push_two_digits,
};

fn cv(s: &str) -> Vec<char> {
    s.chars().collect()
}

#[test]
fn white_space_matches_std_for_every_char() {
    for n in 0u32..=0x10FFFF {
        if let Some(c) = char::from_u32(n) {
            assert_eq!(is_white_space_char(c), c.is_whitespace(), "char {:#x}", n);
        }
    }
}

#[test]
fn blank_matches_trim() {
    for s in ["", " ", "\t\n ", "\u{3000}", " a ", "song", "\u{200b}", "\u{85}\u{a0}"] {
        assert_eq!(is_blank(s), s.trim().is_empty(), "{:?}", s);
    }
}

#[test]
fn chars_of_keeps_order() {
    assert_eq!(chars_of("héllo ✕"), vec!['h', 'é', 'l', 'l', 'o', ' ', '✕']);
    assert_eq!(chars_of(""), Vec::<char>::new());
}

#[test]
fn contains_matches_std() {
    let cases = [("hello world", "lo w"), ("hello", ""), ("", ""), ("", "a"), ("abc", "abcd"), ("aaab", "aab"), ("abc", "c"), ("abc", "d")];
    for (h, n) in cases {
        assert_eq!(contains_chars(&cv(h), &cv(n)), h.contains(n), "{:?} {:?}", h, n);
    }
}

#[test]
fn ends_with_matches_std() {
    let cases = [("song.mp3", ".mp3"), ("song.MP3", ".mp3"), ("mp3", ".mp3"), (".mp3", ".mp3"), ("", ""), ("a.mp3.txt", ".mp3")];
    for (h, n) in cases {
        assert_eq!(ends_with_chars(&cv(h), &cv(n)), h.ends_with(n), "{:?} {:?}", h, n);
    }
}

#[test]
fn decimal_numerals() {
    for n in [0u32, 7, 10, 59, 60, 99, 100, 12345, u32::MAX] {
        let mut s = String::from("x");
        push_decimal(&mut s, n);
        assert_eq!(s, format!("x{}", n));
        let mut t = String::new();
        push_two_digits(&mut t, n);
        assert_eq!(t, format!("{:02}", n));
    }
}
