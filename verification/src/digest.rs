//! Content digests of the form `sha256:<hex>`.
use sha2::{Digest, Sha256};
use vstd::prelude::*;
use vstd::string::{StrSliceExecFns, StringExecFns};

use crate::text::{chars_of, has_prefix, hex_digit, hex_lower, is_hex_digit, starts_with_chars};

verus! {

/// The SHA-256 hash of `data`.
pub uninterp spec fn sha256_of(data: Seq<u8>) -> Seq<u8>;

/// `sha2::Sha256::digest` (the one-shot form of `new`, `update`, `finalize`):
/// the result is the SHA-256 hash of `data`, named [`sha256_of`], and is 32
/// bytes long (the output type is `GenericArray<u8, U32>`).
#[verifier::external_body]
fn sha256_bytes(data: &[u8]) -> (h: Vec<u8>)
    ensures
        h@ == sha256_of(data@),
        h@.len() == 32,
{
    Sha256::digest(data).to_vec()
}

/// `hex::encode`: each byte becomes two lower-case hexadecimal digits, the
/// high nibble first.
#[verifier::external_body]
fn hex_encode(data: &[u8]) -> (s: String)
    ensures
        s@ == hex_lower(data@),
{
    hex::encode(data)
}

/// The scheme prefix of a digest, `sha256:`.
pub open spec fn digest_prefix() -> Seq<char> {
    seq!['s', 'h', 'a', '2', '5', '6', ':']
}

/// A digest reference: `sha256:` followed by one or more hexadecimal digits.
pub open spec fn is_digest_ref(s: Seq<char>) -> bool {
    &&& s.len() > digest_prefix().len()
    &&& has_prefix(s, digest_prefix())
    &&& forall|i: int| digest_prefix().len() <= i < s.len() ==> is_hex_digit(#[trigger] s[i])
}

/// What follows the `sha256:` prefix, if `s` has it.
pub open spec fn digest_hex_of(s: Seq<char>) -> Option<Seq<char>> {
    if has_prefix(s, digest_prefix()) {
        Some(s.skip(digest_prefix().len() as int))
    } else {
        None
    }
}

/// The digest text of a hash: `sha256:` and the hash in lower-case hexadecimal.
pub open spec fn digest_text(hash: Seq<u8>) -> Seq<char> {
    digest_prefix() + hex_lower(hash)
}

/// The characters of `sha256:`.
fn prefix_chars() -> (v: Vec<char>)
    ensures
        v@ == digest_prefix(),
{
    let v = chars_of("sha256:");
    proof {
        reveal_strlit("sha256:");
    }
    assert(v@ =~= digest_prefix());
    v
}

/// Computes the SHA-256 digest of `data` as `sha256:<lower-case hex>`.
pub fn sha256_digest(data: &[u8]) -> (r: String)
    ensures
        r@ == digest_text(sha256_of(data@)),
        r@.len() == 71,
        is_digest_ref(r@),
        digest_hex_of(r@) == Some(hex_lower(sha256_of(data@))),
{
    let hash = sha256_bytes(data);
    let hex = hex_encode(hash.as_slice());
    let mut r = String::from_str("sha256:");
    proof {
        reveal_strlit("sha256:");
    }
    r.append(hex.as_str());
    assert(r@ =~= digest_text(hash@));
    proof {
        lemma_digest_text_is_reference(hash@);
    }
    r
}

/// Returns true if the reference looks like a digest: `sha256:` followed by
/// one or more ASCII hexadecimal digits.
pub fn is_digest_reference(reference: &str) -> (r: bool)
    ensures
        r == is_digest_ref(reference@),
{
    let v = chars_of(reference);
    let p = prefix_chars();
    if !starts_with_chars(&v, &p) || v.len() <= 7 {
        return false;
    }
    let mut i: usize = 7;
    while i < v.len()
        invariant
            7 <= i <= v@.len(),
            v@ == reference@,
            forall|j: int| 7 <= j < i ==> is_hex_digit(#[trigger] v@[j]),
        decreases v@.len() - i,
    {
        if !hex_digit(v[i]) {
            assert(!is_hex_digit(reference@[i as int]));
            return false;
        }
        i = i + 1;
    }
    true
}

/// Extracts the hex portion of a digest like `sha256:abc123`: the text after
/// the `sha256:` prefix, or `None` when the prefix is absent.
pub fn digest_hex(digest: &str) -> (r: Option<&str>)
    ensures
        r matches Some(h) ==> digest_hex_of(digest@) == Some(h@),
        r is None ==> digest_hex_of(digest@) is None,
{
    let v = chars_of(digest);
    let p = prefix_chars();
    if starts_with_chars(&v, &p) {
        Some(digest.substring_char(7, v.len()))
    } else {
        None
    }
}

/// A digest text is a digest reference, and its hex part is the encoded hash:
/// for every non-empty hash `h`, `sha256:` followed by `hex(h)` passes
/// [`is_digest_reference`] and [`digest_hex`] gives back `hex(h)`.
pub proof fn lemma_digest_text_is_reference(h: Seq<u8>)
    requires
        h.len() > 0,
    ensures
        is_digest_ref(digest_text(h)),
        digest_hex_of(digest_text(h)) == Some(hex_lower(h)),
        digest_text(h).len() == 7 + 2 * h.len(),
{
    let s = digest_text(h);
    assert(s.take(7) =~= digest_prefix());
    assert(s.skip(7) =~= hex_lower(h));
    assert forall|i: int| 7 <= i < s.len() implies is_hex_digit(#[trigger] s[i]) by {
        let k = i - 7;
        assert(s[i] == hex_lower(h)[k]);
        let b = h[k / 2] as int;
        assert(0 <= b / 16 < 16 && 0 <= b % 16 < 16);
    }
}

/// Stripping the prefix undoes adding it: for every text `t`,
/// [`digest_hex`] of `sha256:` followed by `t` is `t`.
pub proof fn lemma_digest_hex_of_prefixed(t: Seq<char>)
    ensures
        digest_hex_of(digest_prefix() + t) == Some(t),
{
    assert((digest_prefix() + t).take(7) =~= digest_prefix());
    assert((digest_prefix() + t).skip(7) =~= t);
}

/// Exactly the texts `sha256:` followed by one or more hexadecimal digits
/// are digest references.
pub proof fn lemma_prefixed_hex_is_reference(h: Seq<char>)
    ensures
        is_digest_ref(seq!['s', 'h', 'a', '2', '5', '6', ':'] + h) <==> (h.len() > 0 && forall|i: int|
            0 <= i < h.len() ==> is_hex_digit(#[trigger] h[i])),
{
    let s = seq!['s', 'h', 'a', '2', '5', '6', ':'] + h;
    assert(s.take(7) =~= digest_prefix());
    if h.len() > 0 && forall|i: int| 0 <= i < h.len() ==> is_hex_digit(#[trigger] h[i]) {
        assert forall|i: int| 7 <= i < s.len() implies is_hex_digit(#[trigger] s[i]) by {
            assert(s[i] == h[i - 7]);
        }
    }
    if is_digest_ref(s) {
        assert forall|i: int| 0 <= i < h.len() implies is_hex_digit(#[trigger] h[i]) by {
            assert(s[i + 7] == h[i]);
        }
    }
}

/// Every digest reference has a hex part, and that part is non-empty and made
/// of hexadecimal digits only.
pub proof fn lemma_reference_has_hex(s: Seq<char>)
    requires
        is_digest_ref(s),
    ensures
        digest_hex_of(s) matches Some(h) && h.len() > 0 && forall|i: int|
            0 <= i < h.len() ==> is_hex_digit(#[trigger] h[i]),
{
    let h = s.skip(7);
    assert forall|i: int| 0 <= i < h.len() implies is_hex_digit(#[trigger] h[i]) by {
        assert(h[i] == s[i + 7]);
    }
}

} // verus!
