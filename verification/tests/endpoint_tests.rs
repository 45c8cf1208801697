use unifi_client::endpoint::{contains_char, split_path};
use unifi_client::text::{blank, byte_length, same_text};

#[test]
fn a_path_is_split_at_its_slashes() {
    assert_eq!(split_path("/api/s/default/stat/guest"), vec!["api", "s", "default", "stat", "guest"]);
    assert_eq!(split_path("api/self"), vec!["api", "self"]);
    assert_eq!(split_path("a"), vec!["a"]);
}

#[test]
fn empty_pieces_are_no_segments() {
    assert_eq!(split_path("///a//b///c//"), vec!["a", "b", "c"]);
    assert_eq!(split_path("///a//b///c//"), split_path("a/b/c"));
    assert!(split_path("").is_empty());
    assert!(split_path("/").is_empty());
    assert!(split_path("////").is_empty());
    assert_eq!(split_path("/a"), vec!["a"]);
    assert_eq!(split_path("a/"), vec!["a"]);
}

#[test]
fn segments_are_counted_in_characters() {
    assert_eq!(split_path("/caf\u{e9}/\u{1F600}//\u{4e2d}\u{6587}/"), vec!["caf\u{e9}", "\u{1F600}", "\u{4e2d}\u{6587}"]);
    assert_eq!(split_path(" / a /"), vec![" ", " a "]);
    assert_eq!(split_path("a\\b/c?d"), vec!["a\\b", "c?d"]);
}

#[test]
fn a_character_is_found_where_it_is() {
    assert!(contains_char("/api/self?foo=bar", '?'));
    assert!(!contains_char("/api/self?foo=bar", '#'));
    assert!(contains_char("#", '#'));
    assert!(contains_char("abc#", '#'));
    assert!(!contains_char("", '?'));
    assert!(contains_char("\u{e9}?", '?'));
    assert!(!contains_char("\u{ff1f}", '?'));
}

#[test]
fn texts_are_compared_and_measured() {
    assert!(same_text("ok", "ok"));
    assert!(!same_text("ok", "OK"));
    assert!(!same_text("ok", "ok "));
    assert!(same_text("", ""));
    assert_eq!(byte_length("abc"), 3);
    assert_eq!(byte_length("\u{e9}"), 2);
    assert_eq!(byte_length(""), 0);
}

#[test]
fn white_space_is_blank() {
    assert!(blank(""));
    assert!(blank("   "));
    assert!(blank(" \t\r\n"));
    assert!(blank("\u{a0}\u{2003}"));
    assert!(!blank(" a "));
    assert!(!blank("\u{200b}"));
}

/// A small generator of texts, the same on every run.
struct Texts {
    state: u64,
}

impl Texts {
    fn next(&mut self) -> u64 {
        self.state = self
            .state
            .wrapping_mul(6364136223846793005)
            .wrapping_add(1442695040888963407);
        self.state >> 33
    }

    fn text(&mut self, alphabet: &[char]) -> String {
        let length = (self.next() % 12) as usize;
        (0..length)
            .map(|_| alphabet[(self.next() % alphabet.len() as u64) as usize])
            .collect()
    }
}

#[test]
fn split_path_is_split_and_filter() {
    let alphabet = ['/', '/', 'a', 'b', '.', ' ', '%', '\u{e9}', '\u{1F600}', '\\'];
    let mut texts = Texts { state: 7 };
    for _ in 0..2000 {
        let path = texts.text(&alphabet);
        let expected: Vec<&str> = path.split('/').filter(|piece| !piece.is_empty()).collect();
        assert_eq!(split_path(&path), expected, "path was {path:?}");
    }
}

#[test]
fn the_normal_form_has_the_same_segments() {
    let alphabet = ['/', '/', 'a', 'b', 'c'];
    let mut texts = Texts { state: 11 };
    for _ in 0..2000 {
        let path = texts.text(&alphabet);
        let segments = split_path(&path);
        let normal = segments.join("/");
        assert_eq!(split_path(&normal), segments, "path was {path:?}");
        assert_eq!(split_path(&format!("/{path}")), segments);
        assert_eq!(split_path(&format!("{path}/")), segments);
        assert_eq!(split_path(&path.replace('/', "//")), segments);
    }
}

#[test]
fn contains_char_is_contains() {
    let alphabet = ['?', '#', 'a', '/', '\u{e9}'];
    let mut texts = Texts { state: 13 };
    for _ in 0..2000 {
        let text = texts.text(&alphabet);
        assert_eq!(contains_char(&text, '?'), text.contains('?'));
        assert_eq!(contains_char(&text, '#'), text.contains('#'));
        assert_eq!(byte_length(&text), text.len());
        assert_eq!(blank(&text), text.trim().is_empty());
    }
}

#[test]
fn white_space_is_what_unicode_says() {
    // The characters that the standard library trims are those of Unicode's
    // property White_Space.
    for code in 0..=0x10FFFFu32 {
        let Some(c) = char::from_u32(code) else { continue };
        let listed = matches!(
            code,
            0x09..=0x0D
                | 0x20
                | 0x85
                | 0xA0
                | 0x1680
                | 0x2000..=0x200A
                | 0x2028
                | 0x2029
                | 0x202F
                | 0x205F
                | 0x3000
        );
        assert_eq!(c.is_whitespace(), listed, "code point {code:#x}");
        if listed || code < 0x3100 {
            let alone = c.to_string();
            assert_eq!(blank(&alone), listed, "code point {code:#x}");
            assert_eq!(blank(&format!(" {alone}\t")), listed, "code point {code:#x}");
            assert_eq!(format!("{alone}a{alone}").trim() == "a", listed, "code point {code:#x}");
        }
    }
}
