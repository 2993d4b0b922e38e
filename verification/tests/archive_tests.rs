use std::io::Cursor;
use std::io::Read;

use confined_archiver::archive::{build_archive, ArchiveWriter, FileData};
use confined_archiver::errors::ExportError;
use confined_archiver::fstree::{enumerate_files, FsEntry, FsNode};

fn entry(path: &str, bytes: &[u8]) -> FileData {
    FileData {
        rel_path: path.to_string(),
        bytes: bytes.to_vec(),
    }
}

#[test]
fn empty_archive_is_valid_and_has_no_entries() {
    let bytes = build_archive(&Vec::new()).unwrap();
    let archive = zip::ZipArchive::new(Cursor::new(bytes)).unwrap();
    assert_eq!(archive.len(), 0);
}

#[test]
fn archive_bytes_are_a_real_zip_not_the_input() {
    let payload = b"some file contents that should be framed, not echoed";
    let bytes = build_archive(&vec![entry("data.bin", payload)]).unwrap();
    assert_ne!(bytes, payload.to_vec());
    // A zip file starts with the local-file-header signature PK\x03\x04.
    assert_eq!(&bytes[0..4], b"PK\x03\x04");
}

#[test]
fn round_trip_restores_paths_and_contents() {
    let files = vec![
        entry("a.txt", b"hello"),
        entry("sub/b.bin", &[0u8, 1, 2, 250, 255]),
        entry("sub/deeper/c.txt", b""),
    ];
    let bytes = build_archive(&files).unwrap();
    let mut archive = zip::ZipArchive::new(Cursor::new(bytes)).unwrap();
    assert_eq!(archive.len(), 3);
    for f in &files {
        let mut stored = archive.by_name(&f.rel_path).unwrap();
        let mut contents = Vec::new();
        stored.read_to_end(&mut contents).unwrap();
        assert_eq!(contents, f.bytes);
    }
}

#[test]
fn entries_are_deflate_compressed() {
    let payload = vec![7u8; 100_000];
    let bytes = build_archive(&vec![entry("zeros.bin", &payload)]).unwrap();
    // Deflate shrinks a constant run far below its raw size.
    assert!(bytes.len() < payload.len() / 10);
    let mut archive = zip::ZipArchive::new(Cursor::new(bytes)).unwrap();
    let stored = archive.by_index(0).unwrap();
    assert_eq!(stored.compression(), zip::CompressionMethod::Deflated);
}

#[test]
fn duplicate_entry_names_are_an_archive_error() {
    let files = vec![entry("same.txt", b"one"), entry("same.txt", b"two")];
    let err = build_archive(&files).unwrap_err();
    assert!(matches!(err, ExportError::ArchiveError { .. }));
    assert!(err.message().starts_with("Failed to add file to zip: "));
}

#[test]
fn fresh_writer_finishes_into_an_empty_archive() {
    let bytes = ArchiveWriter::new().finish().unwrap();
    let archive = zip::ZipArchive::new(Cursor::new(bytes)).unwrap();
    assert_eq!(archive.len(), 0);
}

#[test]
fn files_added_one_at_a_time_round_trip() {
    let mut writer = ArchiveWriter::new();
    writer.add_file(&entry("first.txt", b"alpha")).unwrap();
    writer.add_file(&entry("dir/second.txt", b"beta")).unwrap();
    let bytes = writer.finish().unwrap();
    let mut archive = zip::ZipArchive::new(Cursor::new(bytes)).unwrap();
    assert_eq!(archive.len(), 2);
    let mut contents = Vec::new();
    archive
        .by_name("dir/second.txt")
        .unwrap()
        .read_to_end(&mut contents)
        .unwrap();
    assert_eq!(contents, b"beta".to_vec());
}

#[test]
fn adding_a_duplicate_entry_name_fails() {
    let mut writer = ArchiveWriter::new();
    writer.add_file(&entry("twice.txt", b"one")).unwrap();
    let err = writer.add_file(&entry("twice.txt", b"two")).unwrap_err();
    assert!(matches!(err, ExportError::ArchiveError { .. }));
}

#[test]
fn enumerated_tree_round_trips_through_archive() {
    let root = vec![
        FsEntry {
            name: "readme.md".to_string(),
            node: FsNode::File,
        },
        FsEntry {
            name: "notes".to_string(),
            node: FsNode::Dir {
                entries: vec![
                    FsEntry {
                        name: "escape".to_string(),
                        node: FsNode::Link,
                    },
                    FsEntry {
                        name: "today.txt".to_string(),
                        node: FsNode::File,
                    },
                ],
            },
        },
    ];
    let paths = enumerate_files(&root);
    let files: Vec<FileData> = paths
        .iter()
        .map(|p| entry(p, p.as_bytes()))
        .collect();
    let bytes = build_archive(&files).unwrap();
    let mut archive = zip::ZipArchive::new(Cursor::new(bytes)).unwrap();
    assert_eq!(archive.len(), 2);
    let mut names = Vec::new();
    for i in 0..archive.len() {
        names.push(archive.by_index(i).unwrap().name().to_string());
    }
    names.sort();
    assert_eq!(names, vec!["notes/today.txt".to_string(), "readme.md".to_string()]);
}
