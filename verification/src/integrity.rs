//! Checking a downloaded archive against the digest its catalog entry names.

use crate::digest::{hex_digit, hex_encode, sha256, sha256_digest, to_hex};
use vstd::prelude::*;
use vstd::string::{is_ascii_spec_bytes, StringSliceAdditionalSpecFns};
use vstd::utf8::is_ascii_chars;

verus! {

/// The ASCII lowercase form of a character; anything but `A`..`Z` is kept.
pub open spec fn ascii_lower(c: char) -> char {
    if 'A' <= c && c <= 'Z' {
        ((c as u8) + 32) as char
    } else {
        c
    }
}

/// A text with every character in ASCII lowercase.
pub open spec fn lowercased(text: Seq<char>) -> Seq<char> {
    text.map_values(|c: char| ascii_lower(c))
}

/// Whether `expected`, read without regard to letter case, is the lowercase
/// hexadecimal text of `digest`.
pub open spec fn digest_matches(expected: Seq<char>, digest: Seq<u8>) -> bool {
    lowercased(expected) == to_hex(digest)
}

/// An archive whose digest is not the one that was announced.
#[derive(Debug, PartialEq, Eq)]
pub struct Mismatch {
    /// The digest text the catalog gave.
    pub expected: String,
    /// The lowercase hexadecimal digest of the bytes at hand.
    pub computed: String,
}

/// Hexadecimal text holds ASCII characters only.
pub proof fn hex_is_ascii(bytes: Seq<u8>)
    ensures
        is_ascii_chars(to_hex(bytes)),
{
    assert forall|i: int| 0 <= i < to_hex(bytes).len() implies '\0' <= #[trigger] to_hex(
        bytes,
    )[i] <= '\u{7f}' by {
        let b = bytes[i / 2];
        assert(b / 16 < 16 && b % 16 < 16);
    }
}

/// Lowercasing leaves hexadecimal text as it is.
pub proof fn hex_is_lowercase(bytes: Seq<u8>)
    ensures
        lowercased(to_hex(bytes)) == to_hex(bytes),
{
    assert forall|i: int| 0 <= i < to_hex(bytes).len() implies ascii_lower(to_hex(bytes)[i])
        == to_hex(bytes)[i] by {
        let b = bytes[i / 2];
        assert(b / 16 < 16 && b % 16 < 16);
    }
    assert(lowercased(to_hex(bytes)) =~= to_hex(bytes));
}

/// Bytes with the same hexadecimal text are the same bytes.
pub proof fn hex_is_injective(a: Seq<u8>, b: Seq<u8>)
    requires
        to_hex(a) == to_hex(b),
    ensures
        a == b,
{
    assert(to_hex(a).len() == 2 * a.len());
    assert(to_hex(b).len() == 2 * b.len());
    assert forall|i: int| 0 <= i < a.len() implies a[i] == b[i] by {
        let high = 2 * i;
        let low = 2 * i + 1;
        assert(to_hex(a)[high] == hex_digit(a[i] / 16) && to_hex(b)[high] == hex_digit(b[i] / 16));
        assert(to_hex(a)[low] == hex_digit(a[i] % 16) && to_hex(b)[low] == hex_digit(b[i] % 16));
    }
    assert(a =~= b);
}

/// The digest is accepted under its own rendering, and under any text that
/// differs from an accepted one in letter case only; every other text is
/// rejected.
pub proof fn digest_round_trip(accepted: Seq<char>, other: Seq<char>, digest: Seq<u8>)
    requires
        digest_matches(accepted, digest),
    ensures
        digest_matches(to_hex(digest), digest),
        digest_matches(other, digest) <==> lowercased(other) == lowercased(accepted),
{
    hex_is_lowercase(digest);
}

/// A text is accepted for one digest only.
pub proof fn accepted_digest_is_unique(expected: Seq<char>, a: Seq<u8>, b: Seq<u8>)
    requires
        digest_matches(expected, a),
        digest_matches(expected, b),
    ensures
        a == b,
{
    hex_is_injective(a, b);
}

fn lower_byte(b: u8) -> (l: u8)
    requires
        b < 128,
    ensures
        l as char == ascii_lower(b as char),
        l < 128,
{
    if 65 <= b && b <= 90 {
        b + 32
    } else {
        b
    }
}

/// Whether `text`, lowercased, equals the ASCII text `lower`.
fn lowercase_equals(text: &str, lower: &str) -> (same: bool)
    requires
        is_ascii_chars(lower@),
    ensures
        same == (lowercased(text@) == lower@),
{
    if !text.is_ascii() {
        proof {
            let i = choose|i: int| 0 <= i < text@.len() && !('\0' <= #[trigger] text@[i] <= '\u{7f}');
            assert(lowercased(text@)[i] == text@[i]);
            if lowercased(text@) == lower@ {
                assert('\0' <= lower@[i] <= '\u{7f}');
            }
        }
        return false;
    }
    let x = text.as_bytes();
    let y = lower.as_bytes();
    proof {
        is_ascii_spec_bytes(text);
        is_ascii_spec_bytes(lower);
    }
    if x.len() != y.len() {
        assert(lowercased(text@).len() != lower@.len());
        return false;
    }
    let n = x.len();
    let mut i: usize = 0;
    while i < n
        invariant
            i <= n,
            n == text@.len(),
            n == lower@.len(),
            is_ascii_chars(text@),
            is_ascii_chars(lower@),
            x@ == Seq::new(text@.len(), |k: int| text@[k] as u8),
            y@ == Seq::new(lower@.len(), |k: int| lower@[k] as u8),
            forall|k: int| 0 <= k < i ==> ascii_lower(text@[k]) == lower@[k],
        decreases n - i,
    {
        assert('\0' <= text@[i as int] <= '\u{7f}');
        assert('\0' <= lower@[i as int] <= '\u{7f}');
        if lower_byte(x[i]) != y[i] {
            assert(lowercased(text@)[i as int] != lower@[i as int]);
            return false;
        }
        i += 1;
    }
    assert(lowercased(text@) =~= lower@);
    true
}

/// Compares an announced digest text with a digest that was computed.
///
/// Succeeds exactly when the announced text, case disregarded, is the
/// hexadecimal rendering of `digest`; otherwise the error carries the
/// announced text unchanged and the rendering of `digest`.
pub fn check_digest(expected: &str, digest: &[u8]) -> (outcome: Result<(), Mismatch>)
    ensures
        outcome is Ok <==> digest_matches(expected@, digest@),
        outcome matches Err(m) ==> m.expected@ == expected@ && m.computed@ == to_hex(digest@),
{
    let computed = hex_encode(digest);
    proof {
        hex_is_ascii(digest@);
    }
    if lowercase_equals(expected, computed.as_str()) {
        Ok(())
    } else {
        Err(Mismatch { expected: expected.to_owned(), computed })
    }
}

/// Verifies that `content` has the SHA-256 digest that `expected` names.
///
/// Succeeds exactly when `expected`, case disregarded, is the lowercase
/// hexadecimal SHA-256 digest of `content`; otherwise the error carries both
/// the announced and the computed text.
pub fn verify(expected: &str, content: &[u8]) -> (outcome: Result<(), Mismatch>)
    ensures
        outcome is Ok <==> digest_matches(expected@, sha256(content@)),
        outcome matches Err(m) ==> m.expected@ == expected@ && m.computed@ == to_hex(
            sha256(content@),
        ),
{
    let digest = sha256_digest(content);
    check_digest(expected, digest.as_slice())
}

} // verus!
