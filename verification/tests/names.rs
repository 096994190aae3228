use image_upload::names::{
    is_safe_segment, is_unsafe, path_of, preview_name_of, sanitize, settle_name,
};

#[test]
fn plain_name_is_kept() {
    assert_eq!(sanitize("photo.png"), "photo.png");
}

#[test]
fn separators_are_removed() {
    assert_eq!(sanitize("../../etc/passwd"), "....etcpasswd");
    assert_eq!(sanitize("a/b\\c"), "abc");
}

#[test]
fn illegal_and_control_characters_are_removed() {
    assert_eq!(sanitize("a<b>:c*?.png"), "abc.png");
    assert_eq!(sanitize("a\u{0}b\u{1f}c"), "abc");
}

#[test]
fn dot_names_fall_back_to_the_placeholder() {
    assert_eq!(sanitize("."), "unnamed");
    assert_eq!(sanitize(".."), "unnamed");
    assert_eq!(sanitize("..."), "unnamed");
}

#[test]
fn emptied_names_fall_back_to_the_placeholder() {
    assert_eq!(sanitize(""), "unnamed");
    assert_eq!(sanitize("///"), "unnamed");
    assert_eq!(sanitize("?*:"), "unnamed");
}

#[test]
fn sanitize_never_gives_an_empty_name() {
    for raw in ["", "/", "..", "a", "\\", "x/../y", "\u{9f}"] {
        let name = sanitize(raw);
        assert!(!name.is_empty());
        assert!(is_safe_segment(&name));
    }
}

#[test]
fn sanitize_twice_is_sanitize_once() {
    let long = "\u{e9}".repeat(200);
    let dotted = format!("{}/x", ".".repeat(300));
    for raw in [
        "photo.png",
        "../../etc/passwd",
        "",
        "..",
        "a/b",
        "unnamed",
        "x y.jpeg",
        "con",
        "trailing. ",
        long.as_str(),
        dotted.as_str(),
    ] {
        let once = sanitize(raw);
        assert_eq!(sanitize(&once), once);
    }
    assert_eq!(sanitize(&long), "\u{e9}".repeat(127));
    assert_eq!(sanitize("con"), "con");
    assert_eq!(sanitize("trailing. "), "trailing. ");
}

#[test]
fn long_names_are_cut() {
    let raw = "a".repeat(300);
    assert_eq!(sanitize(&raw), "a".repeat(255));
}

#[test]
fn a_name_cut_down_to_dots_falls_back_to_the_placeholder() {
    let raw = format!("{}a", ".".repeat(255));
    let once = sanitize(&raw);
    assert_eq!(once, "unnamed");
    assert_eq!(sanitize(&once), once);
}

#[test]
fn unsafe_characters_are_recognised() {
    for c in ['/', '\\', '?', '<', '>', ':', '*', '|', '"', '\u{0}', '\u{1f}', '\u{80}', '\u{9f}'] {
        assert!(is_unsafe(c));
    }
    for c in ['a', '.', ' ', '_', '-', '\u{20}', '\u{7f}', '\u{a0}', '\u{e9}'] {
        assert!(!is_unsafe(c));
    }
}

#[test]
fn settle_name_keeps_segments_and_replaces_the_rest() {
    assert_eq!(settle_name(String::from("photo.png")), "photo.png");
    assert_eq!(settle_name(String::from("")), "unnamed");
    assert_eq!(settle_name(String::from(".")), "unnamed");
    assert_eq!(settle_name(String::from("..")), "unnamed");
    assert_eq!(settle_name(String::from("a/b")), "unnamed");
    assert_eq!(settle_name(String::from("a\\b")), "unnamed");
    assert_eq!(settle_name(String::from("...")), "unnamed");
    assert_eq!(settle_name(String::from("a:b")), "unnamed");
    assert_eq!(settle_name(String::from("a\u{7}b")), "unnamed");
    assert_eq!(settle_name(String::from("..a")), "..a");
}

#[test]
fn safe_segments_are_recognised() {
    assert!(is_safe_segment("photo.png"));
    assert!(is_safe_segment(".hidden"));
    assert!(is_safe_segment("...x"));
    assert!(!is_safe_segment("..."));
    assert!(!is_safe_segment("a*b"));
    assert!(!is_safe_segment("a\u{85}b"));
    assert!(is_safe_segment("h\u{e9}"));
    assert!(!is_safe_segment(""));
    assert!(!is_safe_segment("."));
    assert!(!is_safe_segment(".."));
    assert!(!is_safe_segment("a/b"));
    assert!(!is_safe_segment("/"));
    assert!(!is_safe_segment("a\\"));
}

#[test]
fn paths_are_directory_separator_name() {
    assert_eq!(path_of("./tmp", "photo.png"), "./tmp/photo.png");
    assert_eq!(path_of("", "x"), "/x");
}

#[test]
fn preview_names_carry_the_prefix() {
    assert_eq!(preview_name_of("photo.png"), "preview_photo.png");
    assert_eq!(preview_name_of(""), "preview_");
    assert_eq!(
        path_of("./tmp", &preview_name_of("photo.png")),
        "./tmp/preview_photo.png"
    );
}
