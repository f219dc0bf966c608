use onepurge::path::{components_of, PathComponent};
use onepurge::text::{
    after_last_of, before_last_of, chars_of, first_word_of, lines, split_chars, trim_chars,
    white_space,
};
use std::path::{Component, Path};

fn chars(s: &str) -> Vec<char> {
    s.chars().collect()
}

fn string(v: &[char]) -> String {
    v.iter().collect()
}

fn std_components(p: &str) -> Vec<String> {
    Path::new(p)
        .components()
        .map(|c| match c {
            Component::RootDir => "<root>".to_string(),
            Component::CurDir => "<cur>".to_string(),
            Component::ParentDir => "<parent>".to_string(),
            Component::Normal(n) => n.to_string_lossy().to_string(),
            Component::Prefix(_) => "<prefix>".to_string(),
        })
        .collect()
}

fn our_components(p: &str) -> Vec<String> {
    components_of(p)
        .iter()
        .map(|c| match c {
            PathComponent::RootDir => "<root>".to_string(),
            PathComponent::CurDir => "<cur>".to_string(),
            PathComponent::ParentDir => "<parent>".to_string(),
            PathComponent::Normal(n) => string(n),
        })
        .collect()
}

const SAMPLE_PATHS: &[&str] = &[
    "",
    "/",
    "//",
    ".",
    "./",
    "..",
    "a",
    "a/",
    "/a/b/c",
    "/a//b///c/",
    "./a/./b/.",
    "a/../b",
    "../../x",
    ".hidden",
    "./.hidden",
    "/Users/me/Library/Caches/com.apple.Safari",
    "/Users/me/./Library/../Library/Caches",
    "a/./.",
    "/.",
    "/..",
    "...",
    "x/.../y",
    "/Users/me/projects/app/node_modules",
];

#[test]
fn components_agree_with_std_paths() {
    for p in SAMPLE_PATHS {
        assert_eq!(our_components(p), std_components(p), "path {:?}", p);
    }
}

#[test]
fn chars_of_keeps_every_character() {
    assert_eq!(chars_of("héllo wörld"), chars("héllo wörld"));
    assert_eq!(chars_of(""), Vec::<char>::new());
}

#[test]
fn white_space_agrees_with_unicode() {
    for code in 0u32..0x110000 {
        if let Some(c) = char::from_u32(code) {
            assert_eq!(white_space(c), c.is_whitespace(), "code point {:x}", code);
        }
    }
}

#[test]
fn trim_agrees_with_str_trim() {
    for s in ["", "   ", " a ", "\t1.2GB\n", "a b", "\u{3000}x\u{85}", "x"] {
        assert_eq!(string(&trim_chars(&chars(s))), s.trim(), "text {:?}", s);
    }
}

#[test]
fn lines_agree_with_str_lines() {
    for s in [
        "",
        "\n",
        "a",
        "a\n",
        "a\nb",
        "a\r\nb\r\n",
        "a\r",
        "\n\nx\n",
        "Images\t1GB\t500MB (50%)\nBuild Cache\t0B\t0B\n",
    ] {
        let ours: Vec<String> = lines(&chars(s)).iter().map(|l| string(l)).collect();
        let theirs: Vec<String> = s.lines().map(|l| l.to_string()).collect();
        assert_eq!(ours, theirs, "text {:?}", s);
    }
}

#[test]
fn split_agrees_with_str_split() {
    for s in ["", "a", "a\tb", "\t", "a\t\tb\t"] {
        let ours: Vec<String> = split_chars(&chars(s), '\t').iter().map(|l| string(l)).collect();
        let theirs: Vec<String> = s.split('\t').map(|l| l.to_string()).collect();
        assert_eq!(ours, theirs, "text {:?}", s);
    }
}

#[test]
fn first_word_agrees_with_split_whitespace() {
    for s in ["", "   ", "500MB (50%)", "  1.2GB  x", "one"] {
        let ours = first_word_of(&chars(s)).map(|w| string(&w));
        let theirs = s.split_whitespace().next().map(|w| w.to_string());
        assert_eq!(ours, theirs, "text {:?}", s);
    }
}

#[test]
fn last_separator_splits() {
    assert_eq!(string(&after_last_of(&chars("com.apple.Safari"), '.')), "Safari");
    assert_eq!(string(&after_last_of(&chars("plain"), '.')), "plain");
    assert_eq!(string(&after_last_of(&chars("trailing."), '.')), "");
    assert_eq!(before_last_of(&chars("App-abc123"), '-').map(|v| string(&v)), Some("App".to_string()));
    assert_eq!(before_last_of(&chars("My-App-abc"), '-').map(|v| string(&v)), Some("My-App".to_string()));
    assert_eq!(before_last_of(&chars("NoDash"), '-'), None);
}
