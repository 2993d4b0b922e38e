use confined_archiver::settings::{approve_saved_dir, approve_saved_settings};

#[test]
fn absolute_saved_dir_is_approved() {
    let r = approve_saved_dir(Some("/home/alice/prompts".to_string()));
    assert_eq!(r, Some("/home/alice/prompts".to_string()));
}

#[test]
fn missing_saved_dir_is_ignored() {
    assert_eq!(approve_saved_dir(None), None);
}

#[test]
fn blank_saved_dir_is_ignored() {
    assert_eq!(approve_saved_dir(Some(String::new())), None);
    assert_eq!(approve_saved_dir(Some("   \t\n".to_string())), None);
}

#[test]
fn relative_saved_dir_is_ignored() {
    assert_eq!(approve_saved_dir(Some("prompts".to_string())), None);
    assert_eq!(approve_saved_dir(Some("./prompts".to_string())), None);
}

#[test]
fn settings_text_with_absolute_saved_dir_is_approved() {
    let contents = "{\"theme\": \"dark\", \"promptDir\": \"/home/alice/prompts\"}";
    assert_eq!(
        approve_saved_settings(contents),
        Some("/home/alice/prompts".to_string())
    );
}

#[test]
fn settings_text_without_usable_saved_dir_is_ignored() {
    assert_eq!(approve_saved_settings("not json at all"), None);
    assert_eq!(approve_saved_settings("{\"theme\": \"dark\"}"), None);
    assert_eq!(approve_saved_settings("{\"promptDir\": 7}"), None);
    assert_eq!(approve_saved_settings("{\"promptDir\": \"\"}"), None);
    assert_eq!(approve_saved_settings("{\"promptDir\": \"relative/dir\"}"), None);
}

#[test]
fn padded_absolute_saved_dir_is_kept_verbatim() {
    // A value that trims to something non-empty is judged by its first
    // character, as the surrounding application does.
    assert_eq!(approve_saved_dir(Some(" /x".to_string())), None);
    assert_eq!(
        approve_saved_dir(Some("/x ".to_string())),
        Some("/x ".to_string())
    );
}
