use webapp_manager::names::{extension, host_label, join_path, safe_name};
use webapp_manager::text::{from_chars, text_is_blank, to_chars};

#[test]
fn safe_name_replaces_spaces_and_strips_punctuation() {
    assert_eq!(safe_name("My App!"), "My_App");
}

#[test]
fn safe_name_keeps_letters_digits_and_underscores() {
    assert_eq!(safe_name("Web_App2"), "Web_App2");
    assert_eq!(safe_name("a b c"), "a_b_c");
    assert_eq!(safe_name("  padded  "), "__padded__");
}

#[test]
fn safe_name_has_only_safe_characters() {
    for name in ["My App!", "Mail (work) #1", "a/b\\c:d", "tab\there", "Caf\u{e9} 1", "\u{65e5}\u{672c}"] {
        let safe = safe_name(name);
        assert!(safe.chars().all(|c| c.is_ascii_alphanumeric() || c == '_'), "{safe}");
        assert!(!safe.contains(' '));
    }
}

#[test]
fn safe_name_drops_what_is_not_ascii() {
    assert_eq!(safe_name("Caf\u{e9} 1"), "Caf_1");
    assert_eq!(safe_name("tab\there"), "tabhere");
}

#[test]
fn safe_name_of_punctuation_alone_is_empty() {
    assert_eq!(safe_name("!!!"), "");
    assert_eq!(safe_name(""), "");
}

#[test]
fn safe_name_of_a_safe_name_is_itself() {
    let once = safe_name("My App!");
    assert_eq!(safe_name(&once), once);
}

#[test]
fn host_label_keeps_letters_digits_and_hyphens() {
    assert_eq!(host_label("example.com"), "examplecom");
    assert_eq!(host_label("my-site.example.org"), "my-siteexampleorg");
    assert_eq!(host_label("127.0.0.1"), "127001");
    assert_eq!(host_label("[::1]"), "1");
    assert_eq!(host_label("under_score"), "underscore");
}

#[test]
fn extension_is_what_follows_the_last_dot() {
    assert_eq!(extension("/icons/fav.png"), "png");
    assert_eq!(extension("/favicon.ico"), "ico");
    assert_eq!(extension("/a.b.svg"), "svg");
    assert_eq!(extension("/icon."), "");
    assert_eq!(extension("/v1.2/icon"), "2/icon");
}

#[test]
fn extension_defaults_to_png() {
    assert_eq!(extension("/icon"), "png");
    assert_eq!(extension("/"), "png");
    assert_eq!(extension(""), "png");
}

#[test]
fn join_path_inserts_one_separator() {
    assert_eq!(join_path("/home/u", "x"), "/home/u/x");
    assert_eq!(join_path("/home/u/", "x"), "/home/u/x");
    assert_eq!(join_path("/", "x"), "/x");
    assert_eq!(join_path("", "x"), "x");
    assert_eq!(join_path("/home/u", ""), "/home/u/");
}

#[test]
fn join_path_with_an_absolute_child_is_the_child() {
    assert_eq!(join_path("/home/u", "/etc"), "/etc");
}

#[test]
fn join_path_agrees_with_std_paths() {
    for (base, child) in [("/home/u", "a/b"), ("/home/u/", "a"), ("/", "a"), ("", "a"), ("/x", "/y")] {
        let expected = std::path::Path::new(base).join(child);
        assert_eq!(join_path(base, child), expected.to_string_lossy());
    }
}

#[test]
fn blank_text_is_white_space_alone() {
    assert!(text_is_blank(""));
    assert!(text_is_blank("   "));
    assert!(text_is_blank(" \t\r\n"));
    assert!(text_is_blank("\u{a0}\u{2003}\u{3000}"));
    assert!(!text_is_blank(" a "));
    assert!(!text_is_blank("\u{200b}"));
}

#[test]
fn blank_text_agrees_with_trim() {
    for code in 0u32..0x3100 {
        if let Some(c) = char::from_u32(code) {
            let text = c.to_string();
            assert_eq!(text_is_blank(&text), text.trim().is_empty(), "U+{code:04X}");
        }
    }
}

#[test]
fn characters_round_trip() {
    let chars = to_chars("h\u{e9}llo");
    assert_eq!(chars, vec!['h', '\u{e9}', 'l', 'l', 'o']);
    assert_eq!(from_chars(&chars), "h\u{e9}llo");
}
