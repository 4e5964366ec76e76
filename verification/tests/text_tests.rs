use rust_clip::bytes::{copy_range, push_all, push_be, push_le, push_range, read_be, read_le, take_array};
use rust_clip::text::{
    chars_of_str, find_text, has_text, matches_at, remove_text, string_of_chars, trim_text,
};

fn chars(s: &str) -> Vec<char> {
    s.chars().collect()
}

fn text(c: Vec<char>) -> String {
    c.into_iter().collect()
}

#[test]
fn strings_to_characters_and_back() {
    assert_eq!(chars_of_str(""), Vec::<char>::new());
    assert_eq!(chars_of_str("aé🦀"), vec!['a', 'é', '🦀']);
    assert_eq!(string_of_chars(&['a', 'é', '🦀']), "aé🦀");
    assert_eq!(string_of_chars(&[]), "");
}

#[test]
fn search_finds_the_first_occurrence() {
    let hay = chars("abcabcabc");
    assert_eq!(find_text(&hay, &chars("abc"), 0), Some(0));
    assert_eq!(find_text(&hay, &chars("abc"), 1), Some(3));
    assert_eq!(find_text(&hay, &chars("abc"), 6), Some(6));
    assert_eq!(find_text(&hay, &chars("abc"), 7), None);
    assert_eq!(find_text(&hay, &chars("cab"), 0), Some(2));
    assert_eq!(find_text(&hay, &chars("abd"), 0), None);
    assert_eq!(find_text(&hay, &chars("abcabcabcd"), 0), None);
    assert_eq!(find_text(&hay, &[], 0), Some(0));
    assert_eq!(find_text(&hay, &[], 9), Some(9));
    assert_eq!(find_text(&hay, &[], 10), None);
    assert_eq!(find_text(&[], &[], 0), Some(0));
    assert_eq!(find_text(&[], &chars("a"), 0), None);
    assert!(matches_at(&hay, &chars("bca"), 1));
    assert!(!matches_at(&hay, &chars("bca"), 2));
    assert!(!matches_at(&hay, &chars("bc"), 8));
    assert!(!matches_at(&hay, &chars("a"), 100));
    assert!(has_text(&hay, &chars("ca")));
    assert!(!has_text(&hay, &chars("cc")));
}

#[test]
fn removal_takes_out_every_occurrence_from_left_to_right() {
    let remove = |hay: &str, needle: &str| text(remove_text(&chars(hay), &chars(needle)));
    assert_eq!(remove("a\"b\"c", "\""), "abc");
    assert_eq!(remove("ring_id=x", "ring_id="), "x");
    assert_eq!(remove("aaa", "aa"), "a");
    assert_eq!(remove("ababa", "aba"), "ba");
    assert_eq!(remove("abc", ""), "abc");
    assert_eq!(remove("", "x"), "");
    assert_eq!(remove("xxxx", "x"), "");
    assert_eq!(remove("abc", "abcd"), "abc");
    for (hay, needle) in [("a\"b\"c", "\""), ("aaa", "aa"), ("ababa", "aba"), ("xyxyxy", "yx")] {
        assert_eq!(remove(hay, needle), hay.replace(needle, ""));
    }
}

#[test]
fn trimming_takes_white_space_off_both_ends() {
    let trim = |s: &str| text(trim_text(&chars(s)));
    assert_eq!(trim("  a b \n"), "a b");
    assert_eq!(trim("abc"), "abc");
    assert_eq!(trim(""), "");
    assert_eq!(trim(" \t\r\n"), "");
    assert_eq!(trim("\u{2003}x\u{00A0}"), "x");
    for s in ["  a b \n", " ", "x ", " x", "\u{3000}y z\u{3000}"] {
        assert_eq!(trim(s), s.trim());
    }
}

#[test]
fn white_space_is_the_characters_of_the_property_and_no_other() {
    let trim = |s: &str| text(trim_text(&chars(s)));
    let white = [
        '\u{9}', '\u{a}', '\u{b}', '\u{c}', '\u{d}', ' ', '\u{85}', '\u{a0}', '\u{1680}', '\u{2000}',
        '\u{2001}', '\u{2002}', '\u{2003}', '\u{2004}', '\u{2005}', '\u{2006}', '\u{2007}',
        '\u{2008}', '\u{2009}', '\u{200a}', '\u{2028}', '\u{2029}', '\u{202f}', '\u{205f}',
        '\u{3000}',
    ];
    for c in white {
        assert_eq!(trim(&format!("{}x{}", c, c)), "x");
    }
    for c in ['\u{8}', '\u{e}', '\u{1f}', '!', '\u{84}', '\u{86}', '\u{9f}', '\u{a1}', '\u{180e}',
        '\u{1fff}', '\u{200b}', '\u{2027}', '\u{202a}', '\u{2060}', '\u{2fff}', '\u{3001}', '\u{feff}']
    {
        let kept = format!("{}x{}", c, c);
        assert_eq!(trim(&kept), kept);
    }
    let mut count = 0;
    for code in 0u32..=0x10_FFFF {
        if let Some(c) = char::from_u32(code) {
            if trim_text(&[c]).is_empty() {
                count += 1;
                assert!(white.contains(&c));
            }
        }
    }
    assert_eq!(count, 25);
}

#[test]
fn integers_as_bytes_in_both_orders() {
    let mut out = vec![0xAA];
    push_le(&mut out, 0x0102_0304_0506_0708, 8);
    push_be(&mut out, 0x0102_0304_0506_0708, 8);
    push_le(&mut out, 0x0A0B_0C0D, 4);
    push_be(&mut out, 0x0A0B_0C0D, 4);
    push_le(&mut out, 0x1234, 0);
    push_be(&mut out, 0x1234, 1);
    assert_eq!(
        out,
        vec![
            0xAA, 8, 7, 6, 5, 4, 3, 2, 1, 1, 2, 3, 4, 5, 6, 7, 8, 0x0D, 0x0C, 0x0B, 0x0A, 0x0A, 0x0B,
            0x0C, 0x0D, 0x34
        ]
    );
    assert_eq!(read_le(&out, 1, 8), 0x0102_0304_0506_0708);
    assert_eq!(read_be(&out, 9, 8), 0x0102_0304_0506_0708);
    assert_eq!(read_le(&out, 17, 4), 0x0A0B_0C0D);
    assert_eq!(read_be(&out, 21, 4), 0x0A0B_0C0D);
    assert_eq!(read_le(&out, 0, 0), 0);
    assert_eq!(read_be(&[0xFF; 8], 0, 8), u64::MAX);
    assert_eq!(read_le(&[0xFF; 8], 0, 8), u64::MAX);
    for x in [0u64, 1, 255, 256, 0xDEAD_BEEF, u64::MAX] {
        let mut le = Vec::new();
        push_le(&mut le, x, 8);
        assert_eq!(le, x.to_le_bytes().to_vec());
        let mut be = Vec::new();
        push_be(&mut be, x, 8);
        assert_eq!(be, x.to_be_bytes().to_vec());
    }
}

#[test]
fn byte_string_helpers() {
    let src = [1u8, 2, 3, 4, 5];
    let mut out = vec![9];
    push_range(&mut out, &src, 1, 3);
    push_all(&mut out, &src);
    assert_eq!(out, vec![9, 2, 3, 1, 2, 3, 4, 5]);
    assert_eq!(copy_range(&src, 2, 5), vec![3, 4, 5]);
    assert_eq!(copy_range(&src, 2, 2), Vec::<u8>::new());
    assert_eq!(take_array::<3>(&src, 1), [2, 3, 4]);
    assert_eq!(take_array::<0>(&src, 5), []);
}
