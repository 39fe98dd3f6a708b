use quarto_render::naming::{name_hints, named, temp_extension, temp_stem};
use quarto_render::text::{
    char_is_whitespace, concat2, concat3, concat5, decimal_string, join_with, same_text, to_chars,
    trimmed,
};

#[test]
fn whitespace_is_the_unicode_property() {
    for c in ['\t', '\n', '\u{b}', '\u{c}', '\r', ' ', '\u{85}', '\u{a0}', '\u{1680}', '\u{2000}',
        '\u{2005}', '\u{200a}', '\u{2028}', '\u{2029}', '\u{202f}', '\u{205f}', '\u{3000}']
    {
        assert!(char_is_whitespace(c), "{:?}", c);
        assert!(c.is_whitespace());
    }
    for c in ['a', '-', '\u{8}', '\u{e}', '\u{200b}', '\u{feff}', '\u{180e}', '\u{2060}', '0'] {
        assert!(!char_is_whitespace(c), "{:?}", c);
        assert!(!c.is_whitespace());
    }
}

#[test]
fn whitespace_agrees_with_the_standard_library_everywhere() {
    let mut n: u32 = 0;
    while n <= 0x10ffff {
        if let Some(c) = char::from_u32(n) {
            assert_eq!(char_is_whitespace(c), c.is_whitespace(), "U+{:04X}", n);
        }
        n += 1;
    }
}

#[test]
fn trimming() {
    assert_eq!(trimmed("  revealjs \n"), "revealjs");
    assert_eq!(trimmed("\u{3000}a b\u{a0}"), "a b");
    assert_eq!(trimmed(""), "");
    assert_eq!(trimmed(" \t\r\n"), "");
    assert_eq!(trimmed("x"), "x");
    assert_eq!(trimmed("한 글 "), "한 글");
    assert_eq!(trimmed("ab  cd  "), "ab  cd");
}

#[test]
fn characters_and_comparison() {
    assert_eq!(to_chars("a한b"), vec!['a', '한', 'b']);
    assert!(same_text("pptx", "pptx"));
    assert!(!same_text("pptx", "pptX"));
    assert!(!same_text("pptx", "ppt"));
    assert!(same_text("", ""));
}

#[test]
fn concatenation_and_joining() {
    assert_eq!(concat2("a", "b"), "ab");
    assert_eq!(concat3("a", "", "c"), "ac");
    assert_eq!(concat5("1", "2", "3", "4", "5"), "12345");
    assert_eq!(join_with(&Vec::new(), " | "), "");
    assert_eq!(join_with(&vec!["a".to_string()], " | "), "a");
    assert_eq!(
        join_with(&vec!["a".to_string(), "".to_string(), "c".to_string()], " | "),
        "a |  | c"
    );
}

#[test]
fn decimal_rendering() {
    assert_eq!(decimal_string(0), "0");
    assert_eq!(decimal_string(9), "9");
    assert_eq!(decimal_string(10), "10");
    assert_eq!(decimal_string(1755325282888), "1755325282888");
    assert_eq!(decimal_string(u128::MAX), "340282366920938463463374607431768211455");
}

#[test]
fn stems_and_extensions_of_temporary_files() {
    assert_eq!(temp_stem(Some("demo"), 42), "demo_42");
    assert_eq!(temp_stem(None, 42), "temp_quarto_42");
    assert_eq!(temp_stem(Some(""), 0), "_0");
    assert_eq!(temp_extension(Some("qmd")), "qmd");
    assert_eq!(temp_extension(Some("QmD")), "qmd");
    assert_eq!(temp_extension(Some("md")), "md");
    assert_eq!(temp_extension(Some("MD")), "md");
    assert_eq!(temp_extension(Some("markdown")), "md");
    assert_eq!(temp_extension(Some("")), "md");
    assert_eq!(temp_extension(None), "md");
    assert_eq!(named("demo_42", "md"), "demo_42.md");
}

#[test]
fn hints_come_from_the_file_name() {
    assert_eq!(name_hints(None), (None, None));
    assert_eq!(name_hints(Some("demo.md")), (Some("demo".to_string()), Some("md".to_string())));
    assert_eq!(name_hints(Some("dir/demo")), (Some("demo".to_string()), None));
    assert_eq!(name_hints(Some("")), (None, None));
    assert_eq!(name_hints(Some(".hidden")), (Some(".hidden".to_string()), None));
}

#[test]
fn plain_names_split_at_the_last_dot() {
    let some = |s: &str| Some(s.to_string());
    assert_eq!(name_hints(Some("a.b.c")), (some("a.b"), some("c")));
    assert_eq!(name_hints(Some("a.")), (some("a"), some("")));
    assert_eq!(name_hints(Some("...")), (some(".."), some("")));
    assert_eq!(name_hints(Some("..a")), (some("."), some("a")));
    assert_eq!(name_hints(Some(".a.b")), (some(".a"), some("b")));
    assert_eq!(name_hints(Some("no dot")), (some("no dot"), None));
    assert_eq!(name_hints(Some("deck_1.tar.gz")), (some("deck_1.tar"), some("gz")));
    // Directories parted by `/` are dropped.
    assert_eq!(name_hints(Some("talks/demo.md")), (some("demo"), some("md")));
    assert_eq!(name_hints(Some("/home/alice/talks/a.b.qmd")), (some("a.b"), some("qmd")));
    assert_eq!(name_hints(Some("./.hidden")), (some(".hidden"), None));
    assert_eq!(name_hints(Some("../up")), (some("up"), None));
    // Not plain: what the file name is depends on the host.
    assert_eq!(name_hints(Some(".")), (None, None));
    assert_eq!(name_hints(Some("..")), (None, None));
}
