//! Content addressing: the identifier of a blob is the hex form of the SHA-256 digest of
//! its path's bytes followed by its content's bytes.

use crate::blob::Blob;
use vstd::prelude::*;
use vstd::utf8::encode_utf8;

verus! {

/// The most bytes that one digest is computed over.
pub open spec fn max_digest_input() -> int {
    (usize::MAX / 8) as int
}

/// The SHA-256 digest of `data`, as `ring::digest::digest` computes it.
pub uninterp spec fn sha256(data: Seq<u8>) -> Seq<u8>;

/// The lower-case hex digit of `n`, which is below sixteen.
pub open spec fn hex_digit(n: u8) -> char {
    if n < 10 {
        ((n + 48) as u8) as char
    } else {
        ((n + 87) as u8) as char
    }
}

/// The lower-case hex form of `bytes`: two digits for each byte, the high half first.
pub open spec fn hex_text(bytes: Seq<u8>) -> Seq<char> {
    Seq::new(
        2 * bytes.len(),
        |i: int|
            if i % 2 == 0 {
                hex_digit(bytes[i / 2] / 16)
            } else {
                hex_digit(bytes[i / 2] % 16)
            },
    )
}

/// The identifier of the blob with this path and content.
pub open spec fn identifier_of(path: Seq<char>, content: Seq<char>) -> Seq<char> {
    hex_text(sha256(encode_utf8(path) + encode_utf8(content)))
}

/// The identifiers of `blobs`, in their order.
pub open spec fn identifiers_of(blobs: Seq<crate::blob::BlobView>) -> Seq<Seq<char>> {
    Seq::new(blobs.len(), |i: int| identifier_of(blobs[i].path, blobs[i].content))
}

/// Whether a digest can be computed over this path and content.
pub open spec fn is_hashable(path: Seq<char>, content: Seq<char>) -> bool {
    encode_utf8(path).len() + encode_utf8(content).len() <= max_digest_input()
}

/// Whether a digest can be computed over each of `blobs`.
pub open spec fn all_hashable(blobs: Seq<crate::blob::BlobView>) -> bool {
    forall|i: int| 0 <= i < blobs.len() ==> is_hashable(#[trigger] blobs[i].path, blobs[i].content)
}

/// `ring::digest::digest` with `SHA256`: the SHA-256 digest of `data`, which has 32
/// bytes. The outside function fails where the length of `data` in bits does not fit in
/// 64 bits; `requires` leaves such data out.
#[verifier::external_body]
fn sha256_digest(data: &[u8]) -> (digest: Vec<u8>)
    requires
        data@.len() <= max_digest_input(),
    ensures
        digest@ == sha256(data@),
        digest@.len() == 32,
{
    ring::digest::digest(&ring::digest::SHA256, data).as_ref().to_vec()
}

/// `hex::encode`: each byte as two lower-case hex digits, the high half first.
#[verifier::external_body]
fn hex_encode(bytes: &[u8]) -> (text: String)
    ensures
        text@ == hex_text(bytes@),
{
    hex::encode(bytes)
}

/// Whether a digest can be computed over this path and content.
pub fn can_hash(path: &str, content: &str) -> (fits: bool)
    ensures
        fits == is_hashable(path@, content@),
{
    let limit: usize = usize::MAX / 8;
    let path_bytes = path.as_bytes();
    let content_bytes = content.as_bytes();
    path_bytes.len() <= limit && content_bytes.len() <= limit - path_bytes.len()
}

/// Whether a digest can be computed over each of `blobs`.
pub fn all_can_hash(blobs: &Vec<Blob>) -> (fit: bool)
    ensures
        fit == all_hashable(blobs.deep_view()),
{
    let mut i: usize = 0;
    assert(blobs.deep_view().len() == blobs@.len());
    while i < blobs.len()
        invariant
            i <= blobs@.len(),
            forall|k: int|
                0 <= k < i ==> is_hashable(
                    #[trigger] blobs.deep_view()[k].path,
                    blobs.deep_view()[k].content,
                ),
        decreases blobs@.len() - i,
    {
        assert(blobs.deep_view()[i as int] == blobs@[i as int]@);
        if !can_hash(blobs[i].path.as_str(), blobs[i].content.as_str()) {
            assert(!is_hashable(blobs.deep_view()[i as int].path, blobs.deep_view()[i as int].content));
            return false;
        }
        i += 1;
    }
    true
}

/// The identifier of the blob with this path and content.
pub fn sha256_hex(path: &str, content: &str) -> (id: String)
    requires
        is_hashable(path@, content@),
    ensures
        id@ == identifier_of(path@, content@),
        id@.len() == 64,
{
    let mut data = path.as_bytes_vec();
    let mut rest = content.as_bytes_vec();
    data.append(&mut rest);
    let digest = sha256_digest(data.as_slice());
    hex_encode(digest.as_slice())
}

impl Blob {
    /// The identifier of this blob.
    pub fn identifier(&self) -> (id: String)
        requires
            is_hashable(self@.path, self@.content),
        ensures
            id@ == identifier_of(self@.path, self@.content),
            id@.len() == 64,
    {
        sha256_hex(self.path.as_str(), self.content.as_str())
    }
}

/// The identifiers of `blobs`, in their order.
pub fn identifiers(blobs: &Vec<Blob>) -> (ids: Vec<String>)
    requires
        all_hashable(blobs.deep_view()),
    ensures
        ids.deep_view() == identifiers_of(blobs.deep_view()),
{
    let mut ids: Vec<String> = Vec::new();
    let mut i: usize = 0;
    while i < blobs.len()
        invariant
            i <= blobs@.len(),
            ids@.len() == i,
            all_hashable(blobs.deep_view()),
            forall|k: int| 0 <= k < i ==> ids@[k]@ == identifier_of(blobs@[k]@.path, blobs@[k]@.content),
        decreases blobs@.len() - i,
    {
        assert(blobs.deep_view()[i as int] == blobs@[i as int]@);
        ids.push(blobs[i].identifier());
        i += 1;
    }
    assert(ids.deep_view() =~= identifiers_of(blobs.deep_view()));
    ids
}

/// Two digits are equal only where their values are.
pub proof fn lemma_hex_digit_injective(a: u8, b: u8)
    requires
        a < 16,
        b < 16,
        hex_digit(a) == hex_digit(b),
    ensures
        a == b,
{
    let x: u8 = if a < 10 { (a + 48) as u8 } else { (a + 87) as u8 };
    let y: u8 = if b < 10 { (b + 48) as u8 } else { (b + 87) as u8 };
    assert((x as char) as u8 == x);
    assert((y as char) as u8 == y);
}

/// The hex form determines the bytes.
pub proof fn lemma_hex_text_injective(a: Seq<u8>, b: Seq<u8>)
    requires
        hex_text(a) == hex_text(b),
    ensures
        a == b,
{
    assert(hex_text(a).len() == 2 * a.len());
    assert(hex_text(b).len() == 2 * b.len());
    assert forall|i: int| 0 <= i < a.len() implies a[i] == b[i] by {
        let x = a[i];
        let y = b[i];
        assert(hex_text(a)[2 * i] == hex_digit(x / 16));
        assert(hex_text(b)[2 * i] == hex_digit(y / 16));
        assert(hex_text(a)[2 * i + 1] == hex_digit(x % 16));
        assert(hex_text(b)[2 * i + 1] == hex_digit(y % 16));
        lemma_hex_digit_injective(x / 16, y / 16);
        lemma_hex_digit_injective(x % 16, y % 16);
    }
    assert(a =~= b);
}

/// The same path and content always give the same identifier.
pub proof fn identifier_is_deterministic(
    path_a: Seq<char>,
    content_a: Seq<char>,
    path_b: Seq<char>,
    content_b: Seq<char>,
)
    requires
        path_a == path_b,
        content_a == content_b,
    ensures
        identifier_of(path_a, content_a) == identifier_of(path_b, content_b),
{
}

/// The bytes of two texts joined are the bytes of the first followed by those of the
/// second.
pub proof fn lemma_encode_utf8_concat(a: Seq<char>, b: Seq<char>)
    ensures
        encode_utf8(a + b) == encode_utf8(a) + encode_utf8(b),
    decreases a.len(),
{
    if a.len() == 0 {
        assert(a + b =~= b);
        assert(encode_utf8(a) + encode_utf8(b) =~= encode_utf8(b));
    } else {
        lemma_encode_utf8_concat(a.drop_first(), b);
        assert((a + b).drop_first() =~= a.drop_first() + b);
        assert((a + b)[0] == a[0]);
        let head = vstd::utf8::encode_scalar(a[0] as u32);
        assert(head + (encode_utf8(a.drop_first()) + encode_utf8(b)) =~= (head + encode_utf8(
            a.drop_first(),
        )) + encode_utf8(b));
    }
}

/// The identifier does not tell where the path ends and the content begins: two blobs
/// whose paths and contents, joined, are the same text have the same identifier.
pub proof fn identifier_ignores_the_boundary(
    path_a: Seq<char>,
    content_a: Seq<char>,
    path_b: Seq<char>,
    content_b: Seq<char>,
)
    requires
        path_a + content_a == path_b + content_b,
    ensures
        identifier_of(path_a, content_a) == identifier_of(path_b, content_b),
{
    lemma_encode_utf8_concat(path_a, content_a);
    lemma_encode_utf8_concat(path_b, content_b);
}

/// Two identifiers differ exactly where the digests do: the hex form loses nothing.
pub proof fn identifiers_differ_with_digests(
    path_a: Seq<char>,
    content_a: Seq<char>,
    path_b: Seq<char>,
    content_b: Seq<char>,
)
    ensures
        identifier_of(path_a, content_a) == identifier_of(path_b, content_b) <==> sha256(
            encode_utf8(path_a) + encode_utf8(content_a),
        ) == sha256(encode_utf8(path_b) + encode_utf8(content_b)),
{
    if identifier_of(path_a, content_a) == identifier_of(path_b, content_b) {
        lemma_hex_text_injective(
            sha256(encode_utf8(path_a) + encode_utf8(content_a)),
            sha256(encode_utf8(path_b) + encode_utf8(content_b)),
        );
    }
}

} // verus!
