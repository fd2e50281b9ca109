use sparklane::archive::{assemble_bundle, extract_zip_to_vec, ArchiveError, RawEntry};
use std::io::{Cursor, Write};
use zip::write::SimpleFileOptions;
use zip::{CompressionMethod, ZipWriter};

fn file(name: &str, content: &[u8]) -> Option<RawEntry> {
    Some(RawEntry {
        is_dir: false,
        name: Some(name.to_string()),
        content: Some(content.to_vec()),
    })
}

fn dir(name: &str) -> Option<RawEntry> {
    Some(RawEntry { is_dir: true, name: Some(name.to_string()), content: Some(Vec::new()) })
}

fn archive(entries: &[(&str, Option<&[u8]>)], method: CompressionMethod) -> Vec<u8> {
    let mut writer = ZipWriter::new(Cursor::new(Vec::new()));
    let options = SimpleFileOptions::default().compression_method(method);
    for (name, content) in entries {
        match content {
            Some(bytes) => {
                writer.start_file(*name, options).unwrap();
                writer.write_all(bytes).unwrap();
            }
            None => {
                writer.add_directory(*name, options).unwrap();
            }
        }
    }
    writer.finish().unwrap().into_inner()
}

#[test]
fn assemble_bundle_keeps_files_in_order() {
    let bundle = assemble_bundle(vec![file("b.txt", b"two"), file("a.txt", b"one")]).unwrap();
    assert_eq!(
        bundle,
        vec![("b.txt".to_string(), b"two".to_vec()), ("a.txt".to_string(), b"one".to_vec())]
    );
}

#[test]
fn assemble_bundle_drops_directories() {
    let bundle =
        assemble_bundle(vec![dir("src/"), file("src/main.py", b"print(1)"), dir("empty/")])
            .unwrap();
    assert_eq!(bundle, vec![("src/main.py".to_string(), b"print(1)".to_vec())]);
}

#[test]
fn assemble_bundle_of_nothing_is_empty() {
    assert_eq!(assemble_bundle(Vec::new()), Ok(Vec::new()));
    assert_eq!(assemble_bundle(vec![dir("a/"), dir("b/")]), Ok(Vec::new()));
}

#[test]
fn assemble_bundle_refuses_at_the_first_unreadable_entry() {
    assert_eq!(
        assemble_bundle(vec![file("a", b"1"), None, None]),
        Err(ArchiveError::UnreadableEntry { index: 1 })
    );
    let no_content = Some(RawEntry { is_dir: false, name: Some("x".to_string()), content: None });
    assert_eq!(
        assemble_bundle(vec![no_content, file("a", b"1")]),
        Err(ArchiveError::UnreadableEntry { index: 0 })
    );
    let no_name = Some(RawEntry { is_dir: false, name: None, content: Some(vec![1, 2]) });
    assert_eq!(
        assemble_bundle(vec![dir("d/"), file("a", b"1"), no_name]),
        Err(ArchiveError::UnreadableEntry { index: 2 })
    );
}

#[test]
fn assemble_bundle_ignores_what_a_directory_lacks() {
    let bare_dir = Some(RawEntry { is_dir: true, name: None, content: None });
    assert_eq!(
        assemble_bundle(vec![bare_dir, file("a", b"1")]),
        Ok(vec![("a".to_string(), b"1".to_vec())])
    );
}

#[test]
fn extract_reads_a_one_file_archive() {
    let bytes = archive(&[("app.py", Some(b"print('hi')\n"))], CompressionMethod::Stored);
    assert_eq!(
        extract_zip_to_vec(&bytes),
        Ok(vec![("app.py".to_string(), b"print('hi')\n".to_vec())])
    );
}

#[test]
fn extract_keeps_paths_and_bytes_and_drops_directories() {
    let binary: Vec<u8> = (0..=255u8).collect();
    let bytes = archive(
        &[
            ("src/", None),
            ("src/index.js", Some(b"console.log(1)")),
            ("assets/", None),
            ("assets/blob.bin", Some(&binary)),
            ("empty.txt", Some(b"")),
        ],
        CompressionMethod::Deflated,
    );
    assert_eq!(
        extract_zip_to_vec(&bytes),
        Ok(vec![
            ("src/index.js".to_string(), b"console.log(1)".to_vec()),
            ("assets/blob.bin".to_string(), binary.clone()),
            ("empty.txt".to_string(), Vec::new()),
        ])
    );
}

#[test]
fn extract_of_an_empty_archive_is_empty() {
    let bytes = archive(&[], CompressionMethod::Stored);
    assert_eq!(extract_zip_to_vec(&bytes), Ok(Vec::new()));
}

#[test]
fn extract_refuses_bytes_that_are_no_archive() {
    assert_eq!(extract_zip_to_vec(b""), Err(ArchiveError::NotAnArchive));
    assert_eq!(extract_zip_to_vec(b"this is not a zip file"), Err(ArchiveError::NotAnArchive));
    assert_eq!(extract_zip_to_vec(&[0u8; 64]), Err(ArchiveError::NotAnArchive));
}

#[test]
fn extract_refuses_an_archive_with_a_damaged_entry() {
    let content = b"0123456789abcdef0123456789abcdef";
    let mut bytes = archive(&[("data.txt", Some(content))], CompressionMethod::Stored);
    let at = bytes.windows(content.len()).position(|w| w == content).unwrap();
    bytes[at] ^= 0xFF;
    assert_eq!(extract_zip_to_vec(&bytes), Err(ArchiveError::UnreadableEntry { index: 0 }));
}

#[test]
fn extract_gives_the_same_bundle_twice() {
    let bytes = archive(
        &[("a.txt", Some(b"alpha")), ("b.txt", Some(b"beta"))],
        CompressionMethod::Deflated,
    );
    assert_eq!(extract_zip_to_vec(&bytes), extract_zip_to_vec(&bytes));
}
