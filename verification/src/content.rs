//! The text/binary gate and lossy decoding of accepted files.
//!
//! Classification is a heuristic sniff done by an outside classifier; the
//! library only fixes which of its verdicts count as text.  Accepted bytes
//! are decoded as UTF-8, replacing ill-formed sequences rather than
//! failing the run.

use vstd::prelude::*;
use vstd::utf8::decode_utf8;
use vstd::utf8::encode_utf8;
use vstd::utf8::encode_utf8_decode_utf8;
use vstd::utf8::encode_utf8_valid_utf8;
use vstd::utf8::valid_utf8;

verus! {

/// The classifier's verdict on a byte buffer.
#[derive(Clone, Copy, Debug, PartialEq, Eq, Structural)]
pub enum ContentKind {
    Binary,
    Utf8,
    Utf8Bom,
    Utf16Le,
    Utf16Be,
    Utf32Le,
    Utf32Be,
}

/// The classifier's verdict; it depends on the bytes alone.
pub uninterp spec fn inspected(bytes: Seq<u8>) -> ContentKind;

/// Relies on content_inspector::inspect: the verdict is a function of the
/// bytes alone; an empty buffer is reported as UTF-8; a buffer whose first
/// byte is zero carries no UTF-8 or UTF-16 byte-order mark and has a zero
/// byte in its scanned prefix, so it is reported binary or UTF-32
/// big-endian.
#[verifier::external_body]
fn inspect_bytes(content: &[u8]) -> (k: ContentKind)
    ensures
        k == inspected(content@),
        content@.len() == 0 ==> k == ContentKind::Utf8,
        content@.len() > 0 && content@[0] == 0u8 ==> (k == ContentKind::Binary || k
            == ContentKind::Utf32Be),
{
    match content_inspector::inspect(content) {
        content_inspector::ContentType::BINARY => ContentKind::Binary,
        content_inspector::ContentType::UTF_8 => ContentKind::Utf8,
        content_inspector::ContentType::UTF_8_BOM => ContentKind::Utf8Bom,
        content_inspector::ContentType::UTF_16LE => ContentKind::Utf16Le,
        content_inspector::ContentType::UTF_16BE => ContentKind::Utf16Be,
        content_inspector::ContentType::UTF_32LE => ContentKind::Utf32Le,
        content_inspector::ContentType::UTF_32BE => ContentKind::Utf32Be,
    }
}

/// The verdicts the tool accepts as text.
pub open spec fn is_text_kind(k: ContentKind) -> bool {
    k == ContentKind::Utf8 || k == ContentKind::Utf16Le || k == ContentKind::Utf16Be
}

/// Decides whether the bytes look like text in an accepted encoding.
///
/// A non-empty buffer that opens with a zero byte is never accepted.
pub fn is_text_file(content: &[u8]) -> (r: bool)
    ensures
        r == is_text_kind(inspected(content@)),
        content@.len() > 0 && content@[0] == 0u8 ==> !r,
{
    let k = inspect_bytes(content);
    matches!(k, ContentKind::Utf8 | ContentKind::Utf16Le | ContentKind::Utf16Be)
}

/// What decoding yields for bytes that are not well-formed UTF-8; the
/// replacement is deterministic, so the result depends on the bytes alone.
pub uninterp spec fn lossy_utf8(bytes: Seq<u8>) -> Seq<char>;

/// The text a file's bytes decode to: the exact UTF-8 decoding for
/// well-formed input, and the replacement-character form otherwise.
pub open spec fn decoded_text(bytes: Seq<u8>) -> Seq<char> {
    if valid_utf8(bytes) {
        decode_utf8(bytes)
    } else {
        lossy_utf8(bytes)
    }
}

/// Relies on String::from_utf8_lossy: well-formed UTF-8 decodes to exactly
/// its characters, and ill-formed sequences are replaced with U+FFFD in a
/// way that depends on the bytes alone.
#[verifier::external_body]
pub(crate) fn decode_lossy(content: &[u8]) -> (r: String)
    ensures
        valid_utf8(content@) ==> r@ == decode_utf8(content@),
        !valid_utf8(content@) ==> r@ == lossy_utf8(content@),
{
    String::from_utf8_lossy(content).into_owned()
}

/// Round trip: text stored as its UTF-8 encoding decodes back unchanged,
/// with no replacement characters introduced.
pub proof fn lemma_utf8_round_trip(text: Seq<char>)
    ensures
        decoded_text(encode_utf8(text)) == text,
{
    encode_utf8_valid_utf8(text);
    encode_utf8_decode_utf8(text);
}

} // verus!
