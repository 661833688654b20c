use video_compare::text::{
    basename, characters, decimal_string, is_space_char, is_uri_path, padded_string, slice,
    starts_with, text_before, trim_end_char, trim_space,
};

#[test]
fn numerals_have_no_leading_zeros() {
    for n in [0u64, 7, 10, 99, 100, 1_000_000, u64::MAX] {
        assert_eq!(decimal_string(n), n.to_string());
        assert_eq!(padded_string(n), format!("{n:02}"));
    }
    assert_eq!(padded_string(5), "05");
}

#[test]
fn base_names_drop_directories_and_queries() {
    assert_eq!(basename("/videos/a.mp4"), "a.mp4");
    assert_eq!(basename("a.mp4"), "a.mp4");
    assert_eq!(basename("C:\\clips\\b.mkv"), "b.mkv");
    assert_eq!(basename("http://host/c.webm?token=1/2"), "c.webm");
    assert_eq!(basename("/videos/"), "/videos/");
    assert_eq!(basename("http://host/?q"), "http://host/?q");
    assert_eq!(basename("?a/b"), "?a/b");
    assert_eq!(basename(""), "");
    assert_eq!(basename("/höhe/größe.mov"), "größe.mov");
}

#[test]
fn labels_are_plain_unless_they_are_the_path() {
    for path in ["/a/b", "a?b", "x\\y/z?w/v", "/", "??", "no/end/", "plain"] {
        let label = basename(path);
        assert!(!label.is_empty());
        if label != path {
            assert!(!label.contains(['/', '\\', '?']));
        }
    }
}

#[test]
fn uris_hold_a_scheme_mark() {
    assert!(is_uri_path("http://host/a"));
    assert!(is_uri_path("://"));
    assert!(is_uri_path("a:://b"));
    assert!(!is_uri_path("/a/b"));
    assert!(!is_uri_path("C:/a"));
    assert!(!is_uri_path(":/"));
    assert!(!is_uri_path(""));
}

#[test]
fn white_space_is_that_of_unicode() {
    for code in 0..0x11_0000u32 {
        if let Some(c) = char::from_u32(code) {
            assert_eq!(is_space_char(c), c.is_whitespace());
        }
    }
}

#[test]
fn trimming_leaves_the_middle() {
    assert_eq!(trim_space("  H.264 \t"), "H.264");
    assert_eq!(trim_space("\u{3000}a b\u{a0}"), "a b");
    assert_eq!(trim_space("   "), "");
    assert_eq!(trim_space(""), "");
    assert_eq!(trim_end_char("100.500", '0'), "100.5");
    assert_eq!(trim_end_char("000", '0'), "");
    assert_eq!(trim_end_char("a", 'b'), "a");
}

#[test]
fn text_is_cut_at_the_first_mark() {
    assert_eq!(text_before("a(b(c", '('), "a");
    assert_eq!(text_before("abc", '('), "abc");
    assert_eq!(text_before("(abc", '('), "");
}

#[test]
fn prefixes_are_found() {
    assert!(starts_with("H.264", "H.26"));
    assert!(starts_with("H.264", ""));
    assert!(starts_with("", ""));
    assert!(!starts_with("H.26", "H.264"));
    assert!(!starts_with("H.264", "264"));
}

#[test]
fn slices_count_characters() {
    assert_eq!(slice("größe", 2, 4), "öß");
    assert_eq!(characters("äb"), vec!['ä', 'b']);
}
