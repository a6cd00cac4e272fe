use pairlane::crypto::{cipher_for, sender_room_key, CryptoError};
use pairlane::file_info::{file_info, FileError, FileInfo};

#[test]
fn file_is_described_by_name_size_and_guessed_type() {
    assert_eq!(
        file_info("/tmp/photos/cat.JPG", 1234),
        Ok(FileInfo {
            path: "/tmp/photos/cat.JPG".to_string(),
            name: "cat.JPG".to_string(),
            size: 1234,
            mime: "image/jpeg".to_string(),
        })
    );
}

#[test]
fn media_type_is_guessed_from_the_extension() {
    assert_eq!(file_info("notes.txt", 0).unwrap().mime, "text/plain");
    assert_eq!(file_info("a/b/report.pdf", 0).unwrap().mime, "application/pdf");
    assert_eq!(file_info("page.html", 0).unwrap().mime, "text/html");
    assert_eq!(file_info("data.json", 0).unwrap().mime, "application/json");
    assert_eq!(file_info("archive.tar.gz", 0).unwrap().mime, "application/gzip");
}

#[test]
fn unknown_extension_is_arbitrary_bytes() {
    assert_eq!(file_info("blob", 7).unwrap().mime, "application/octet-stream");
    assert_eq!(file_info("blob.zzzzunknown", 7).unwrap().mime, "application/octet-stream");
    assert_eq!(file_info(".hidden", 7).unwrap().mime, "application/octet-stream");
}

#[test]
fn guessed_type_agrees_with_the_crate_on_samples() {
    for path in ["a.png", "dir.d/b.MP4", "x.tar.gz", "noext", "x.", "wei rd.svg", "a/b/c.wasm", "é.txt"] {
        let expected = mime_guess::from_path(path).first_or_octet_stream().essence_str().to_string();
        assert_eq!(file_info(path, 1).unwrap().mime, expected, "for {:?}", path);
    }
}

#[test]
fn path_without_a_file_name_is_refused() {
    assert_eq!(file_info("/", 0), Err(FileError::InvalidFileName));
    assert_eq!(file_info("", 0), Err(FileError::InvalidFileName));
    assert_eq!(file_info("a/..", 0), Err(FileError::InvalidFileName));
    assert_eq!(file_info("..", 0), Err(FileError::InvalidFileName));
}

#[test]
fn name_is_the_final_component() {
    assert_eq!(file_info("a/b/c.txt/", 0).unwrap().name, "c.txt");
    assert_eq!(file_info("./c.txt", 0).unwrap().name, "c.txt");
    assert_eq!(file_info("a/b/./", 0).unwrap().name, "b");
}

#[test]
fn sender_key_is_absent_without_encryption() {
    assert_eq!(sender_room_key(true, None), Ok(None));
    assert_eq!(sender_room_key(true, Some(vec![1; 32])), Ok(None));
}

#[test]
fn sender_key_is_the_room_key_or_a_fresh_one() {
    assert_eq!(sender_room_key(false, Some(vec![1; 32])), Ok(Some(vec![1; 32])));
    assert_eq!(sender_room_key(false, Some(vec![1; 5])), Ok(Some(vec![1; 5])));
    let fresh = sender_room_key(false, None).unwrap().unwrap();
    assert_eq!(fresh.len(), 32);
    let other = sender_room_key(false, None).unwrap().unwrap();
    assert_ne!(fresh, other);
}

#[test]
fn cipher_is_made_for_a_key_of_the_right_length() {
    assert!(cipher_for(&None).unwrap().is_none());
    let cipher = cipher_for(&Some(vec![4; 32])).unwrap().unwrap();
    assert_eq!(cipher.key(), &[4u8; 32]);
    assert_eq!(cipher_for(&Some(vec![4; 31])).err(), Some(CryptoError::InvalidKeyLength));
}
