use fake_cdn::init::{
    config_file_content, config_upload_dir, confirms_overwrite, must_confirm_overwrite, token_answer,
    token_from_random_bytes, TokenAnswer,
};

#[test]
fn overwrite_is_asked_only_without_force_for_existing_file() {
    assert!(must_confirm_overwrite(false, true));
    assert!(!must_confirm_overwrite(true, true));
    assert!(!must_confirm_overwrite(false, false));
}

#[test]
fn overwrite_answer() {
    assert!(confirms_overwrite("y\n"));
    assert!(confirms_overwrite("  Y  "));
    assert!(!confirms_overwrite("yes"));
    assert!(!confirms_overwrite("\n"));
    assert!(!confirms_overwrite("n"));
}

#[test]
fn empty_dir_becomes_dot_uploads() {
    assert_eq!(config_upload_dir(""), ".uploads");
    assert_eq!(config_upload_dir("files"), "files");
}

#[test]
fn token_answers() {
    assert!(matches!(token_answer("\n"), TokenAnswer::UseGenerated));
    assert!(matches!(token_answer("y\n"), TokenAnswer::UseGenerated));
    assert!(matches!(token_answer("Y"), TokenAnswer::UseGenerated));
    assert!(matches!(token_answer(" n \n"), TokenAnswer::AskCustom));
    assert!(matches!(token_answer("N"), TokenAnswer::AskCustom));
    match token_answer("  s3cret \n") {
        TokenAnswer::Custom(t) => assert_eq!(t, "s3cret"),
        other => panic!("unexpected {:?}", other),
    }
}

#[test]
fn token_from_bytes_maps_each_byte() {
    assert_eq!(token_from_random_bytes(&[0, 25, 26, 51, 52, 61, 62, 255]), "AZaz09AH");
    let t = token_from_random_bytes(&[7u8; 32]);
    assert_eq!(t.chars().count(), 32);
    assert!(t.chars().all(|c| c.is_ascii_alphanumeric()));
    assert_eq!(token_from_random_bytes(&[]), "");
}

#[test]
fn generated_tokens_are_alphanumeric_for_every_byte() {
    let all: Vec<u8> = (0..=255u8).collect();
    let t = token_from_random_bytes(&all);
    assert_eq!(t.len(), 256);
    assert!(t.chars().all(|c| c.is_ascii_alphanumeric()));
}

#[test]
fn config_file_text() {
    assert_eq!(
        config_file_content(".uploads", "abc"),
        "# Fake-CDN Configuration\n# Upload directory for files\ndir = \".uploads\"\n\n# Authorization token for uploads\ntoken = \"abc\"\n"
    );
}
