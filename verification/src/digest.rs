//! Content identifiers: a SHA-256 digest written in lowercase hexadecimal,
//! and the public reference built from it.

use sha2::Digest;
use vstd::prelude::*;

verus! {

/// The SHA-256 digest of a byte string.
pub uninterp spec fn sha256_digest(data: Seq<u8>) -> Seq<u8>;

/// Number of bytes in a SHA-256 digest.
pub const DIGEST_LEN: usize = 32;

/// The lowercase hexadecimal digit for a value below sixteen.
pub open spec fn hex_digit(nibble: int) -> char {
    if nibble == 0 {
        '0'
    } else if nibble == 1 {
        '1'
    } else if nibble == 2 {
        '2'
    } else if nibble == 3 {
        '3'
    } else if nibble == 4 {
        '4'
    } else if nibble == 5 {
        '5'
    } else if nibble == 6 {
        '6'
    } else if nibble == 7 {
        '7'
    } else if nibble == 8 {
        '8'
    } else if nibble == 9 {
        '9'
    } else if nibble == 10 {
        'a'
    } else if nibble == 11 {
        'b'
    } else if nibble == 12 {
        'c'
    } else if nibble == 13 {
        'd'
    } else if nibble == 14 {
        'e'
    } else {
        'f'
    }
}

/// A character is one of `0`-`9`, `a`-`f`.
pub open spec fn is_lower_hex(c: char) -> bool {
    ('0' <= c && c <= '9') || ('a' <= c && c <= 'f')
}

/// Bytes in lowercase hexadecimal: two digits per byte, the high half
/// first.
pub open spec fn hex_text(bytes: Seq<u8>) -> Seq<char> {
    Seq::new(
        2 * bytes.len(),
        |i: int|
            if i % 2 == 0 {
                hex_digit(bytes[i / 2] as int / 16)
            } else {
                hex_digit(bytes[i / 2] as int % 16)
            },
    )
}

/// The suffix that marks the zeroth sub-unit of an identifier.
pub open spec fn reference_suffix() -> Seq<char> {
    seq!['i', '0']
}

/// The public reference for a digest: its hexadecimal text and the suffix.
pub open spec fn reference_text(digest: Seq<u8>) -> Seq<char> {
    hex_text(digest) + reference_suffix()
}

/// Sixty-four lowercase hexadecimal digits followed by `i0`.
pub open spec fn is_reference(text: Seq<char>) -> bool {
    &&& text.len() == 66
    &&& forall|i: int| 0 <= i < 64 ==> is_lower_hex(#[trigger] text[i])
    &&& text[64] == 'i'
    &&& text[65] == '0'
}

/// Hexadecimal text has two characters per byte, each a lowercase
/// hexadecimal digit.
pub proof fn lemma_hex_text_shape(bytes: Seq<u8>)
    ensures
        hex_text(bytes).len() == 2 * bytes.len(),
        forall|i: int| 0 <= i < 2 * bytes.len() ==> is_lower_hex(#[trigger] hex_text(bytes)[i]),
{
    assert forall|i: int| 0 <= i < 2 * bytes.len() implies is_lower_hex(
        #[trigger] hex_text(bytes)[i],
    ) by {
        let byte = bytes[i / 2] as int;
        assert(0 <= byte / 16 < 16);
        assert(0 <= byte % 16 < 16);
    }
}

/// The reference built from any thirty-two byte digest has the public
/// reference format.
pub proof fn lemma_reference_is_well_formed(digest: Seq<u8>)
    requires
        digest.len() == 32,
    ensures
        is_reference(reference_text(digest)),
{
    lemma_hex_text_shape(digest);
    let text = reference_text(digest);
    assert(text.len() == 66);
    assert forall|i: int| 0 <= i < 64 implies is_lower_hex(#[trigger] text[i]) by {
        assert(text[i] == hex_text(digest)[i]);
    }
    assert(text[64] == reference_suffix()[0]);
    assert(text[65] == reference_suffix()[1]);
}

/// Calls `sha2::Sha256` (`new`, `update`, `finalize`) on `data`.
///
/// Trusted: the bytes returned are the SHA-256 digest of `data`, and there
/// are thirty-two of them, the output size that `sha2` fixes for `Sha256`.
#[verifier::external_body]
pub(crate) fn sha256(data: &[u8]) -> (digest: Vec<u8>)
    ensures
        digest@ == sha256_digest(data@),
        digest@.len() == DIGEST_LEN,
{
    let mut hasher = sha2::Sha256::new();
    hasher.update(data);
    hasher.finalize().to_vec()
}

/// Calls `hex::encode` on `bytes`.
///
/// Trusted: the text returned has two characters per byte, taken from
/// `0123456789abcdef`, the high half of each byte first.
#[verifier::external_body]
pub(crate) fn hex_encode(bytes: &[u8]) -> (text: String)
    ensures
        text@ == hex_text(bytes@),
{
    hex::encode(bytes)
}

} // verus!
