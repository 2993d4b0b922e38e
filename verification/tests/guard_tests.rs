use confined_archiver::errors::{ExportError, PathRole};
use confined_archiver::guard::{
    path_is_within, validate_destination_parent, validate_paths, validate_source,
};

#[test]
fn within_equal_path() {
    assert!(path_is_within("/home/alice", "/home/alice"));
}

#[test]
fn within_descendant() {
    assert!(path_is_within("/home/alice/docs/notes", "/home/alice"));
}

#[test]
fn within_rejects_sibling_with_common_prefix() {
    assert!(!path_is_within("/home/alicex", "/home/alice"));
}

#[test]
fn within_rejects_outside_path() {
    assert!(!path_is_within("/etc", "/home/alice"));
    assert!(!path_is_within("/home", "/home/alice"));
}

#[test]
fn within_filesystem_root() {
    assert!(path_is_within("/home/alice", "/"));
    assert!(path_is_within("/", "/"));
}

#[test]
fn validate_accepts_confined_paths() {
    let r = validate_paths(
        &"/home/alice".to_string(),
        &Ok("/home/alice/prompts".to_string()),
        true,
        &"/home/alice/out.zip".to_string(),
        &Ok("/home/alice/backups".to_string()),
    );
    assert_eq!(r.unwrap(), "/home/alice/prompts".to_string());
}

#[test]
fn validate_unresolvable_source() {
    let r = validate_paths(
        &"/home/alice".to_string(),
        &Err("No such file or directory".to_string()),
        false,
        &"/home/alice/out.zip".to_string(),
        &Ok("/home/alice".to_string()),
    );
    let e = r.unwrap_err();
    assert!(matches!(
        e,
        ExportError::InvalidPath { role: PathRole::Source, .. }
    ));
    assert_eq!(
        e.message(),
        "Invalid source directory: No such file or directory"
    );
}

#[test]
fn validate_source_outside_root() {
    let r = validate_paths(
        &"/home/alice".to_string(),
        &Ok("/etc".to_string()),
        true,
        &"/home/alice/out.zip".to_string(),
        &Ok("/home/alice".to_string()),
    );
    let e = r.unwrap_err();
    assert!(matches!(
        e,
        ExportError::OutsideTrustedRoot { role: PathRole::Source }
    ));
    assert_eq!(
        e.message(),
        "Source directory must be within user home directory"
    );
}

#[test]
fn validate_source_not_a_directory() {
    let r = validate_paths(
        &"/home/alice".to_string(),
        &Ok("/home/alice/file.txt".to_string()),
        false,
        &"/home/alice/out.zip".to_string(),
        &Ok("/home/alice".to_string()),
    );
    let e = r.unwrap_err();
    assert!(matches!(e, ExportError::NotADirectory));
    assert_eq!(e.message(), "Source directory does not exist");
}

#[test]
fn validate_unresolvable_destination_parent() {
    let r = validate_paths(
        &"/home/alice".to_string(),
        &Ok("/home/alice/prompts".to_string()),
        true,
        &"/home/alice/out.zip".to_string(),
        &Err("No such file or directory".to_string()),
    );
    let e = r.unwrap_err();
    assert!(matches!(
        e,
        ExportError::InvalidPath { role: PathRole::Destination, .. }
    ));
    assert_eq!(e.message(), "Invalid output path: No such file or directory");
}

#[test]
fn validate_destination_outside_root() {
    let r = validate_paths(
        &"/home/alice".to_string(),
        &Ok("/home/alice/prompts".to_string()),
        true,
        &"/home/alice/out.zip".to_string(),
        &Ok("/tmp".to_string()),
    );
    let e = r.unwrap_err();
    assert!(matches!(
        e,
        ExportError::OutsideTrustedRoot { role: PathRole::Destination }
    ));
    assert_eq!(
        e.message(),
        "Output path must be within user home directory"
    );
}

#[test]
fn validate_source_checked_before_destination() {
    let r = validate_paths(
        &"/home/alice".to_string(),
        &Ok("/etc".to_string()),
        true,
        &"/home/alice/out.zip".to_string(),
        &Ok("/tmp".to_string()),
    );
    assert!(matches!(
        r.unwrap_err(),
        ExportError::OutsideTrustedRoot { role: PathRole::Source }
    ));
}

#[test]
fn enumeration_and_archive_messages() {
    let e = ExportError::EnumerationError {
        detail: "Failed to read directory: denied".to_string(),
    };
    assert_eq!(e.message(), "Failed to read directory: denied");
    let e = ExportError::ArchiveError {
        detail: "Failed to create zip file: denied".to_string(),
    };
    assert_eq!(e.message(), "Failed to create zip file: denied");
}

#[test]
fn validate_source_alone() {
    let r = validate_source(&Ok("/home/alice/prompts".to_string()), true, &"/home/alice".to_string());
    assert_eq!(r.unwrap(), "/home/alice/prompts".to_string());
    let r = validate_source(&Ok("/etc".to_string()), true, &"/home/alice".to_string());
    assert!(matches!(
        r.unwrap_err(),
        ExportError::OutsideTrustedRoot { role: PathRole::Source }
    ));
}

#[test]
fn validate_destination_parent_returns_destination_verbatim() {
    let r = validate_destination_parent(
        &"/home/alice/out/../backups/archive.zip".to_string(),
        &Ok("/home/alice/backups".to_string()),
        &"/home/alice".to_string(),
    );
    assert_eq!(r.unwrap(), "/home/alice/out/../backups/archive.zip".to_string());
    let r = validate_destination_parent(
        &"/tmp/archive.zip".to_string(),
        &Ok("/tmp".to_string()),
        &"/home/alice".to_string(),
    );
    assert!(matches!(
        r.unwrap_err(),
        ExportError::OutsideTrustedRoot { role: PathRole::Destination }
    ));
}
