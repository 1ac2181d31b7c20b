//! State addresses: a family's namespace followed by the first 64 hexadecimal
//! digits of the SHA-512 digest of a record's key.

use vstd::prelude::*;
use vstd::string::*;
use crypto::digest::Digest;
use crypto::sha2::Sha512;
use crate::text::join;

verus! {

/// The SHA-512 digest of the UTF-8 encoding of `text`.
pub uninterp spec fn sha512_digest(text: Seq<char>) -> Seq<u8>;

/// The lower-case hexadecimal digit for a value below 16.
pub open spec fn hex_digit(n: u8) -> char {
    if n < 10 {
        ('0' as u8 + n) as char
    } else {
        ('a' as u8 + (n - 10)) as char
    }
}

/// Two lower-case hexadecimal digits per byte, high half first.
pub open spec fn lower_hex(bytes: Seq<u8>) -> Seq<char>
    decreases bytes.len(),
{
    if bytes.len() == 0 {
        Seq::empty()
    } else {
        let b = bytes.last();
        lower_hex(bytes.drop_last()) + seq![hex_digit(b / 16), hex_digit(b % 16)]
    }
}

/// The address under which a record with key `key` is kept in a family whose
/// namespace is `namespace`.
pub open spec fn address_for(namespace: Seq<char>, key: Seq<char>) -> Seq<char> {
    namespace + lower_hex(sha512_digest(key)).take(64)
}

/// A lower-case hexadecimal digit.
pub open spec fn is_lower_hex(c: char) -> bool {
    ('0' <= c && c <= '9') || ('a' <= c && c <= 'f')
}

/// Hex encoding writes only lower-case hexadecimal digits.
pub proof fn lemma_lower_hex_digits(bytes: Seq<u8>)
    ensures
        forall|i: int| 0 <= i < lower_hex(bytes).len() ==> is_lower_hex(#[trigger] lower_hex(bytes)[i]),
    decreases bytes.len(),
{
    if bytes.len() > 0 {
        lemma_lower_hex_digits(bytes.drop_last());
        let b = bytes.last();
        assert(is_lower_hex(hex_digit(b / 16)));
        assert(is_lower_hex(hex_digit(b % 16)));
        let h = lower_hex(bytes.drop_last());
        assert forall|i: int| 0 <= i < lower_hex(bytes).len() implies is_lower_hex(
            #[trigger] lower_hex(bytes)[i],
        ) by {
            if i < h.len() {
                assert(lower_hex(bytes)[i] == h[i]);
            }
        }
    }
}

/// Hex encoding doubles the length.
pub proof fn lemma_lower_hex_len(bytes: Seq<u8>)
    ensures
        lower_hex(bytes).len() == 2 * bytes.len(),
    decreases bytes.len(),
{
    if bytes.len() > 0 {
        lemma_lower_hex_len(bytes.drop_last());
    }
}

/// The SHA-512 digest of `text` in lower-case hexadecimal, as computed by
/// `crypto::sha2::Sha512` (`input` of the text's bytes, then `result_str`).
/// Trusted: the digest is what `sha512_digest` names; `result_str` writes
/// the 64 digest bytes as 128 lower-case hexadecimal digits, each byte as
/// its high then its low half.
#[verifier::external_body]
fn sha512_hex(text: &str) -> (r: String)
    ensures
        r@ == lower_hex(sha512_digest(text@)),
        r@.len() == 128,
{
    let mut sha = Sha512::new();
    sha.input(text.as_bytes());
    sha.result_str()
}

/// The address of the record with key `key` in the family of `namespace`.
pub fn namespaced_address(namespace: &str, key: &str) -> (r: String)
    ensures
        r@ == address_for(namespace@, key@),
        r@.len() == namespace@.len() + 64,
        sha512_digest(key@).len() == 64,
        forall|i: int| namespace@.len() <= i < r@.len() ==> is_lower_hex(#[trigger] r@[i]),
{
    let digest = sha512_hex(key);
    proof {
        lemma_lower_hex_len(sha512_digest(key@));
        lemma_lower_hex_digits(sha512_digest(key@));
    }
    let head = digest.as_str().substring_char(0, 64);
    join(namespace, head)
}

/// Law: an address begins with the namespace of its family.
pub proof fn law_address_shape(namespace: Seq<char>, key: Seq<char>)
    ensures
        address_for(namespace, key).take(namespace.len() as int) == namespace,
{
    assert(address_for(namespace, key).take(namespace.len() as int) =~= namespace);
}

} // verus!
