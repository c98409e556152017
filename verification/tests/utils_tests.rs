use fake_cdn::utils::{file_extension, is_safe_url};

#[test]
fn test_safe_paths() {
    assert!(is_safe_url(&"folder/file".to_string()));
    assert!(is_safe_url(&"abc123".to_string()));
    assert!(is_safe_url(&"folder_subfolder_file".to_string()));
}

#[test]
fn test_paths_with_dotdot() {
    assert!(!is_safe_url(&"../etc/passwd".to_string()));
    assert!(!is_safe_url(&"folder/../file".to_string()));
    assert!(!is_safe_url(&"..".to_string()));
}

#[test]
fn test_paths_with_control_chars() {
    assert!(!is_safe_url(&"file\nname".to_string()));
    assert!(!is_safe_url(&"file\tname".to_string()));
    assert!(!is_safe_url(&"file\x00name".to_string()));
}

#[test]
fn test_paths_with_punctuation() {
    assert!(!is_safe_url(&"file:name".to_string()));
    assert!(!is_safe_url(&"file|name".to_string()));
    assert!(!is_safe_url(&"file*name".to_string()));
    assert!(!is_safe_url(&"file?name".to_string()));
    assert!(!is_safe_url(&"file<name>".to_string()));
    assert!(is_safe_url(&"file/name".to_string())); // '/' is punctuation
}

#[test]
fn test_paths_with_whitespace() {
    assert!(!is_safe_url(&"file name".to_string()));
    assert!(!is_safe_url(&" file".to_string()));
    assert!(!is_safe_url(&"file ".to_string()));
}

#[test]
fn test_empty_string() {
    assert!(is_safe_url(&"".to_string()));
}

#[test]
fn safe_url_allows_dash_dot_and_unicode() {
    assert!(is_safe_url(&"a-b.c/d_e".to_string()));
    assert!(is_safe_url(&"photos/été.png".to_string()));
    assert!(is_safe_url(&".hidden/x.y".to_string()));
}

#[test]
fn safe_url_refuses_other_control_and_punctuation() {
    assert!(!is_safe_url(&"a\u{7f}b".to_string()));
    assert!(!is_safe_url(&"a\u{85}b".to_string()));
    assert!(!is_safe_url(&"a\rb".to_string()));
    assert!(!is_safe_url(&"a\u{0c}b".to_string()));
    assert!(!is_safe_url(&"a~b".to_string()));
    assert!(!is_safe_url(&"a@b".to_string()));
    assert!(!is_safe_url(&"a\\b".to_string()));
    assert!(!is_safe_url(&"a%2e".to_string()));
    assert!(!is_safe_url(&"x...y".to_string()));
}

#[test]
fn safe_url_allows_unicode_space_that_is_not_ascii() {
    // U+00A0 is whitespace but neither ASCII whitespace nor a control character.
    assert!(is_safe_url(&"a\u{a0}b".to_string()));
    // U+000B is a control character, though not ASCII whitespace.
    assert!(!is_safe_url(&"a\u{0b}b".to_string()));
}

#[test]
fn file_extension_is_text_after_last_dot() {
    assert_eq!(file_extension("a.txt"), Some("txt"));
    assert_eq!(file_extension("archive.tar.gz"), Some("gz"));
    assert_eq!(file_extension(".hidden"), Some("hidden"));
    assert_eq!(file_extension("dir.d/file"), Some("d/file"));
    assert_eq!(file_extension("é.ü"), Some("ü"));
}

#[test]
fn file_extension_none_without_dot_or_with_trailing_dot() {
    assert_eq!(file_extension("noext"), None);
    assert_eq!(file_extension("trailing."), None);
    assert_eq!(file_extension(""), None);
    assert_eq!(file_extension("."), None);
    assert_eq!(file_extension("a.b."), None);
}

#[test]
fn file_extension_splits_name_law_example() {
    let name = "report.final.pdf";
    let ext = file_extension(name).unwrap();
    assert!(!ext.contains('.'));
    assert_eq!(format!("{}.{}", &name[..name.len() - ext.len() - 1], ext), name);
}
