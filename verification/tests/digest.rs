use acemcp::blob::Blob;
use acemcp::digest::{all_can_hash, can_hash, identifiers, sha256_hex};

#[test]
fn identifier_of_nothing_is_the_digest_of_no_bytes() {
    assert_eq!(
        sha256_hex("", ""),
        "e3b0c44298fc1c149afbf4c8996fb92427ae41e4649b934ca495991b7852b855"
    );
}

#[test]
fn identifier_is_the_hex_digest_of_path_then_content() {
    assert_eq!(
        sha256_hex("abc", ""),
        "ba7816bf8f01cfea414140de5dae2223b00361a396177a9cb410ff61f20015ad"
    );
    assert_eq!(
        sha256_hex("hello ", "world"),
        "b94d27b9934d3e08a52e52d7da7dabfac484efe37a5380ee9088f7ace2efcde9"
    );
}

#[test]
fn identifier_is_the_same_for_the_same_blob() {
    let first = sha256_hex("src/lib.rs", "pub fn f() {}\n");
    let second = sha256_hex("src/lib.rs", "pub fn f() {}\n");
    assert_eq!(first, second);
}

#[test]
fn identifier_changes_with_the_content() {
    let before = sha256_hex("src/lib.rs", "pub fn f() {}\n");
    let after = sha256_hex("src/lib.rs", "pub fn g() {}\n");
    assert_ne!(before, after);
}

#[test]
fn identifier_changes_with_the_path() {
    let before = sha256_hex("src/lib.rs", "pub fn f() {}\n");
    let after = sha256_hex("src/main.rs", "pub fn f() {}\n");
    assert_ne!(before, after);
}

#[test]
fn identifier_changes_with_the_chunk_boundaries() {
    let whole = sha256_hex("a.txt", "one\ntwo\n");
    let chunk = sha256_hex("a.txt#chunk1of2", "one\n");
    assert_ne!(whole, chunk);
}

#[test]
fn identifier_does_not_tell_where_the_path_ends() {
    assert_eq!(sha256_hex("ab", "c"), sha256_hex("a", "bc"));
    assert_eq!(sha256_hex("ab", "c"), sha256_hex("abc", ""));
}

#[test]
fn identifier_has_sixty_four_lower_case_hex_digits() {
    let id = sha256_hex("路径/文件.rs", "内容\n");
    assert_eq!(id.len(), 64);
    assert!(id.chars().all(|c| c.is_ascii_digit() || ('a'..='f').contains(&c)));
}

#[test]
fn identifier_is_taken_over_the_utf8_bytes() {
    assert_eq!(sha256_hex("é", ""), sha256_hex("", "é"));
    assert_ne!(sha256_hex("é", ""), sha256_hex("e", ""));
}

#[test]
fn blob_identifier_is_that_of_its_path_and_content() {
    let blob = Blob::new(String::from("x/y.rs"), String::from("fn y() {}"));
    assert_eq!(blob.identifier(), sha256_hex("x/y.rs", "fn y() {}"));
}

#[test]
fn identifiers_keep_the_order_of_the_blobs() {
    let blobs = vec![
        Blob::new(String::from("a"), String::from("1")),
        Blob::new(String::from("b"), String::from("2")),
        Blob::new(String::from("a"), String::from("1")),
    ];
    let ids = identifiers(&blobs);
    assert_eq!(ids.len(), 3);
    assert_eq!(ids[0], sha256_hex("a", "1"));
    assert_eq!(ids[1], sha256_hex("b", "2"));
    assert_eq!(ids[2], ids[0]);
}

#[test]
fn texts_of_ordinary_length_can_be_addressed() {
    assert!(can_hash("", ""));
    assert!(can_hash("src/lib.rs", "pub fn f() {}\n"));
    assert!(all_can_hash(&Vec::new()));
    assert!(all_can_hash(&vec![
        Blob::new(String::from("a"), String::from("1")),
        Blob::new(String::from("b"), String::from("2")),
    ]));
}
