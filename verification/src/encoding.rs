//! Reading text out of the bytes of a file whose encoding is not known: the encodings
//! are tried in a fixed order, and the first that decodes without error wins.

use vstd::prelude::*;

verus! {

/// The most bytes that one file is decoded from.
pub open spec fn max_decode_input() -> int {
    (usize::MAX / 8) as int
}

/// The text that `encoding_rs::UTF_8.decode` makes of `bytes`, and whether it met
/// malformed sequences.
pub uninterp spec fn utf8_decoding(bytes: Seq<u8>) -> (Seq<char>, bool);

/// The text that `encoding_rs::GBK.decode` makes of `bytes`, and whether it met
/// malformed sequences.
pub uninterp spec fn gbk_decoding(bytes: Seq<u8>) -> (Seq<char>, bool);

/// The text that `encoding_rs::WINDOWS_1252.decode` makes of `bytes`, and whether it met
/// malformed sequences.
pub uninterp spec fn windows_1252_decoding(bytes: Seq<u8>) -> (Seq<char>, bool);

/// What one encoding makes of a file's bytes.
pub struct Decoding {
    /// The decoded text, with a replacement character for each malformed sequence.
    pub text: String,
    /// Whether the bytes held malformed sequences.
    pub had_errors: bool,
}

/// The text chosen among three decodings: that of the first without error, in the
/// order UTF-8, GBK, Windows-1252; where each had errors, that of UTF-8, in which
/// replacement characters stand for what could not be read.
pub open spec fn chosen_text(
    utf8: (Seq<char>, bool),
    gbk: (Seq<char>, bool),
    windows_1252: (Seq<char>, bool),
) -> Seq<char> {
    if !utf8.1 {
        utf8.0
    } else if !gbk.1 {
        gbk.0
    } else if !windows_1252.1 {
        windows_1252.0
    } else {
        utf8.0
    }
}

/// The text of a file with these bytes.
pub open spec fn decoded_text(bytes: Seq<u8>) -> Seq<char> {
    chosen_text(utf8_decoding(bytes), gbk_decoding(bytes), windows_1252_decoding(bytes))
}

/// `Encoding::decode` of `encoding_rs::UTF_8`: the decoded text and whether malformed
/// sequences were met. The outside function fails where the size of its buffer does not
/// fit in `usize`; `requires` leaves such inputs out.
#[verifier::external_body]
fn decode_utf8(bytes: &[u8]) -> (decoding: Decoding)
    requires
        bytes@.len() <= max_decode_input(),
    ensures
        (decoding.text@, decoding.had_errors) == utf8_decoding(bytes@),
{
    let (text, _, had_errors) = encoding_rs::UTF_8.decode(bytes);
    Decoding { text: text.into_owned(), had_errors }
}

/// `Encoding::decode` of `encoding_rs::GBK`: the decoded text and whether malformed
/// sequences were met. The outside function fails where the size of its buffer does not
/// fit in `usize`; `requires` leaves such inputs out.
#[verifier::external_body]
fn decode_gbk(bytes: &[u8]) -> (decoding: Decoding)
    requires
        bytes@.len() <= max_decode_input(),
    ensures
        (decoding.text@, decoding.had_errors) == gbk_decoding(bytes@),
{
    let (text, _, had_errors) = encoding_rs::GBK.decode(bytes);
    Decoding { text: text.into_owned(), had_errors }
}

/// `Encoding::decode` of `encoding_rs::WINDOWS_1252`: the decoded text and whether
/// malformed sequences were met. The outside function fails where the size of its buffer
/// does not fit in `usize`; `requires` leaves such inputs out.
#[verifier::external_body]
fn decode_windows_1252(bytes: &[u8]) -> (decoding: Decoding)
    requires
        bytes@.len() <= max_decode_input(),
    ensures
        (decoding.text@, decoding.had_errors) == windows_1252_decoding(bytes@),
{
    let (text, _, had_errors) = encoding_rs::WINDOWS_1252.decode(bytes);
    Decoding { text: text.into_owned(), had_errors }
}

/// Whether a file of these bytes is short enough to be decoded.
pub fn can_decode(bytes: &[u8]) -> (fits: bool)
    ensures
        fits == (bytes@.len() <= max_decode_input()),
{
    bytes.len() <= usize::MAX / 8
}

/// The text chosen among three decodings of the same bytes.
pub fn choose_decoding(utf8: Decoding, gbk: Decoding, windows_1252: Decoding) -> (text: String)
    ensures
        text@ == chosen_text(
            (utf8.text@, utf8.had_errors),
            (gbk.text@, gbk.had_errors),
            (windows_1252.text@, windows_1252.had_errors),
        ),
{
    if !utf8.had_errors {
        utf8.text
    } else if !gbk.had_errors {
        gbk.text
    } else if !windows_1252.had_errors {
        windows_1252.text
    } else {
        utf8.text
    }
}

/// The text of a file with these bytes. A later encoding is tried only where each
/// earlier one met errors.
pub fn read_file_with_encoding(bytes: &[u8]) -> (text: String)
    requires
        bytes@.len() <= max_decode_input(),
    ensures
        text@ == decoded_text(bytes@),
{
    let utf8 = decode_utf8(bytes);
    if !utf8.had_errors {
        return utf8.text;
    }
    let gbk = decode_gbk(bytes);
    if !gbk.had_errors {
        return gbk.text;
    }
    let windows_1252 = decode_windows_1252(bytes);
    if !windows_1252.had_errors {
        return windows_1252.text;
    }
    utf8.text
}

} // verus!
