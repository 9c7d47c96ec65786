use pluto_build::environment::Environment;
use pluto_build::paths::{has_extension, join_each};
use pluto_build::text::{append, chars_of, contains, copy_optional, copy_texts};
use pluto_build::text::{decimal, extend_texts, replace_char, same_text};
use std::path::Path;

#[test]
fn contains_finds_substrings() {
    assert!(contains("x86_64-apple-darwin", "x86_64"));
    assert!(contains("x86_64-apple-darwin", "darwin"));
    assert!(contains("x86_64-apple-darwin", "-apple-"));
    assert!(contains("abc", "abc"));
    assert!(contains("abc", ""));
    assert!(contains("", ""));
    assert!(!contains("", "a"));
    assert!(!contains("abc", "abcd"));
    assert!(!contains("x86-64", "x86_64"));
    assert!(!contains("aarch6", "aarch64"));
    assert!(contains("aaab", "aab"));
}

#[test]
fn contains_agrees_with_std() {
    let texts = ["", "a", "ab", "aab", "abab", "x86_64-pc-windows-msvc", "ünïcödé"];
    for text in texts {
        for pattern in texts {
            assert_eq!(contains(text, pattern), text.contains(pattern), "{text:?} {pattern:?}");
        }
    }
}

#[test]
fn same_text_compares_characters() {
    assert!(same_text("", ""));
    assert!(same_text("HOST", "HOST"));
    assert!(!same_text("HOST", "HOSt"));
    assert!(!same_text("HOST", "HOS"));
    assert!(!same_text("HOS", "HOST"));
}

#[test]
fn chars_of_keeps_every_character() {
    assert_eq!(chars_of("a-ü"), vec!['a', '-', 'ü']);
    assert_eq!(chars_of(""), Vec::<char>::new());
}

#[test]
fn concat_appends() {
    assert_eq!(append("CXXSTDLIB_", "x"), "CXXSTDLIB_x");
    assert_eq!(append("", ""), "");
}

#[test]
fn replace_char_turns_hyphens_into_underscores() {
    assert_eq!(replace_char("x86_64-unknown-linux-gnu", '-', '_'), "x86_64_unknown_linux_gnu");
    assert_eq!(replace_char("--", '-', '_'), "__");
    assert_eq!(replace_char("abc", '-', '_'), "abc");
    assert_eq!(replace_char("", '-', '_'), "");
}

#[test]
fn decimal_writes_base_ten() {
    assert_eq!(decimal(0), "0");
    assert_eq!(decimal(7), "7");
    assert_eq!(decimal(10), "10");
    assert_eq!(decimal(1234), "1234");
    assert_eq!(decimal(1_000_000), "1000000");
    assert_eq!(decimal(9_005_003), "9005003");
    assert_eq!(decimal(usize::MAX), usize::MAX.to_string());
}

#[test]
fn copies_are_equal() {
    assert_eq!(copy_optional(&Some("a".to_string())), Some("a".to_string()));
    assert_eq!(copy_optional(&None), None);
    let items = vec!["a".to_string(), String::new(), "c".to_string()];
    assert_eq!(copy_texts(&items), items);
}

#[test]
fn extend_texts_appends_copies() {
    let mut texts = vec!["a".to_string()];
    extend_texts(&mut texts, &vec!["b".to_string(), "a".to_string()]);
    extend_texts(&mut texts, &Vec::new());
    assert_eq!(texts, vec!["a".to_string(), "b".to_string(), "a".to_string()]);
}

#[test]
fn join_each_puts_every_name_below_the_directory() {
    let names = vec!["soup".to_string(), "Intrin".to_string()];
    let expected: Vec<String> = names
        .iter()
        .map(|name| Path::new("vendor").join(name).to_string_lossy().into_owned())
        .collect();
    assert_eq!(join_each("vendor", &names), expected);
    assert_ne!(join_each("vendor", &names), names);
    assert!(join_each("vendor", &Vec::new()).is_empty());
}

#[test]
fn extension_is_what_follows_the_last_dot() {
    assert!(has_extension("lapi.cpp", "cpp"));
    assert!(has_extension("a.b.cpp", "cpp"));
    assert!(has_extension(".hidden.cpp", "cpp"));
    assert!(!has_extension("lapi.c", "cpp"));
    assert!(!has_extension("lapi.hpp", "cpp"));
    assert!(!has_extension("lapi.cpp.bak", "cpp"));
    assert!(!has_extension("lapicpp", "cpp"));
    assert!(!has_extension("cpp", "cpp"));
    assert!(!has_extension(".cpp", "cpp"));
    assert!(!has_extension("a.CPP", "cpp"));
    assert!(!has_extension("a.b.cpp", "b.cpp"));
    assert!(has_extension("a.", ""));
    assert!(!has_extension("a", ""));
    assert!(!has_extension("..", ""));
    assert!(!has_extension(".", ""));
    assert!(!has_extension("", ""));
    assert!(!has_extension("", "cpp"));
}

#[test]
fn extension_agrees_with_std_on_file_names() {
    let names = [
        "", ".", "..", "...", "a", "a.", ".a", "..a", "a.b", "a.b.c", ".a.b", "a..b", "lapi.cpp",
        "Makefile", ".gitignore", "x.cpp.in", "ü.cpp",
    ];
    let extensions = ["", "a", "b", "c", "cpp", "in", "b.c", "gitignore"];
    for name in names {
        for ext in extensions {
            let std_says = Path::new(name).extension() == Some(ext.as_ref());
            assert_eq!(has_extension(name, ext), std_says, "{name:?} {ext:?}");
        }
    }
}

#[test]
fn environment_gives_the_first_value_of_a_name() {
    let env = Environment::from_vars(vec![
        ("A".to_string(), "1".to_string()),
        ("B".to_string(), "2".to_string()),
        ("A".to_string(), "3".to_string()),
        ("".to_string(), "4".to_string()),
    ]);
    assert_eq!(env.get("A"), Some("1".to_string()));
    assert_eq!(env.get("B"), Some("2".to_string()));
    assert_eq!(env.get(""), Some("4".to_string()));
    assert_eq!(env.get("C"), None);
    assert_eq!(env.get("a"), None);
    assert_eq!(Environment::from_vars(Vec::new()).get("A"), None);
}
