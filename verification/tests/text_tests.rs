use pengu::text::{contains, ends_with, same_text, starts_with};

#[test]
fn starts_with_cases() {
    assert!(starts_with("https://riot:1234/index.html", "https://riot:"));
    assert!(!starts_with("http://riot:1234/index.html", "https://riot:"));
    assert!(starts_with("abc", ""));
    assert!(!starts_with("ab", "abc"));
    assert!(starts_with("ünï", "ü"));
}

#[test]
fn ends_with_cases() {
    assert!(ends_with("https://riot:1234/index.html", "/index.html"));
    assert!(!ends_with("https://riot:1234/index.htm", "/index.html"));
    assert!(ends_with("", ""));
    assert!(!ends_with("html", "/index.html"));
}

#[test]
fn contains_cases() {
    assert!(contains("c:\\riot\\leagueclientuxrender.exe --type=renderer", "--type=renderer"));
    assert!(contains("abc", "abc"));
    assert!(contains("abc", ""));
    assert!(contains("", ""));
    assert!(!contains("", "a"));
    assert!(!contains("aab", "abb"));
    assert!(contains("aaab", "aab"));
}

#[test]
fn same_text_cases() {
    assert!(same_text("--type=renderer", "--type=renderer"));
    assert!(!same_text("--type=render", "--type=renderer"));
    assert!(!same_text("a", "b"));
    assert!(same_text("", ""));
}
