use acemcp::encoding::{can_decode, choose_decoding, read_file_with_encoding, Decoding};

fn decoding(text: &str, had_errors: bool) -> Decoding {
    Decoding { text: String::from(text), had_errors }
}

#[test]
fn utf8_bytes_are_read_as_utf8() {
    assert_eq!(read_file_with_encoding("fn main() {}\n".as_bytes()), "fn main() {}\n");
    assert_eq!(read_file_with_encoding("中文 and café".as_bytes()), "中文 and café");
}

#[test]
fn no_bytes_are_the_empty_text() {
    assert_eq!(read_file_with_encoding(&[]), "");
}

#[test]
fn utf8_byte_order_mark_is_left_out() {
    assert_eq!(read_file_with_encoding(&[0xEF, 0xBB, 0xBF, b'h', b'i']), "hi");
}

#[test]
fn utf16_byte_order_mark_switches_the_encoding() {
    assert_eq!(read_file_with_encoding(&[0xFF, 0xFE, 0x41, 0x00, 0x42, 0x00]), "AB");
}

#[test]
fn gbk_bytes_are_read_as_gbk_where_utf8_fails() {
    assert_eq!(read_file_with_encoding(&[0xD6, 0xD0, 0xCE, 0xC4]), "中文");
    assert_eq!(read_file_with_encoding(&[b'a', 0xC4, 0xE3, 0xBA, 0xC3, b'\n']), "a你好\n");
}

#[test]
fn windows_1252_is_tried_where_utf8_and_gbk_fail() {
    assert_eq!(read_file_with_encoding(&[b'c', b'a', b'f', 0xE9, b' ', 0xFF]), "café ÿ");
    assert_eq!(read_file_with_encoding(&[0xFF]), "ÿ");
}

#[test]
fn malformed_bytes_behind_a_byte_order_mark_are_replaced() {
    assert_eq!(read_file_with_encoding(&[0xEF, 0xBB, 0xBF, b'a', 0xFF, b'b']), "a\u{FFFD}b");
}

#[test]
fn first_decoding_without_error_is_chosen() {
    assert_eq!(
        choose_decoding(decoding("u", false), decoding("g", false), decoding("w", false)),
        "u"
    );
    assert_eq!(
        choose_decoding(decoding("u", true), decoding("g", false), decoding("w", false)),
        "g"
    );
    assert_eq!(
        choose_decoding(decoding("u", true), decoding("g", true), decoding("w", false)),
        "w"
    );
}

#[test]
fn utf8_with_replacements_is_chosen_where_every_decoding_has_errors() {
    assert_eq!(
        choose_decoding(decoding("u\u{FFFD}", true), decoding("g", true), decoding("w", true)),
        "u\u{FFFD}"
    );
}

#[test]
fn utf8_wins_even_where_others_would_do() {
    assert_eq!(
        choose_decoding(decoding("u", false), decoding("g", true), decoding("w", true)),
        "u"
    );
}

#[test]
fn files_of_ordinary_length_can_be_decoded() {
    assert!(can_decode(&[]));
    assert!(can_decode(&[0u8; 4096]));
}
