//! Stable item ids: the first sixteen lowercase hex digits of the SHA-256
//! digest of an item's path followed by its category key.

use vstd::prelude::*;
use sha2::Digest;
use vstd::string::{StrSliceExecFns, StringExecFns, StringSliceAdditionalSpecFns};

verus! {

broadcast use vstd::string::group_string_axioms;

/// The SHA-256 digest of `data`.
pub uninterp spec fn sha256_digest(data: Seq<u8>) -> Seq<u8>;

/// Calls `sha2::Sha256::digest` (through the `Digest` trait) on `data`.
/// Trusted: the digest is a function of `data` alone, named `sha256_digest`,
/// and is 32 bytes long, as SHA-256 and the crate's `U32` output size give.
#[verifier::external_body]
fn sha256(data: &[u8]) -> (r: Vec<u8>)
    ensures
        r@ == sha256_digest(data@),
        r@.len() == 32,
{
    sha2::Sha256::digest(data).to_vec()
}

/// The lowercase hex digit for `n` (below 16).
pub open spec fn hex_digit(n: int) -> char {
    "0123456789abcdef"@[n]
}

/// Each byte of `bytes` as two lowercase hex digits, high nibble first.
pub open spec fn hex_lower(bytes: Seq<u8>) -> Seq<char>
    decreases bytes.len(),
{
    if bytes.len() == 0 {
        Seq::empty()
    } else {
        hex_lower(bytes.drop_last()) + seq![
            hex_digit(bytes.last() as int / 16),
            hex_digit(bytes.last() as int % 16),
        ]
    }
}

/// `c` is a lowercase hex digit.
pub open spec fn is_hex_digit(c: char) -> bool {
    ('0' <= c && c <= '9') || ('a' <= c && c <= 'f')
}

proof fn lemma_hex_digit(n: int)
    requires
        0 <= n < 16,
    ensures
        is_hex_digit(hex_digit(n)),
{
    reveal_strlit("0123456789abcdef");
}

proof fn lemma_hex_lower_len(bytes: Seq<u8>)
    ensures
        hex_lower(bytes).len() == 2 * bytes.len(),
        forall|k: int| 0 <= k < hex_lower(bytes).len() ==> is_hex_digit(#[trigger] hex_lower(bytes)[k]),
    decreases bytes.len(),
{
    if bytes.len() > 0 {
        lemma_hex_lower_len(bytes.drop_last());
        lemma_hex_digit(bytes.last() as int / 16);
        lemma_hex_digit(bytes.last() as int % 16);
        let h = hex_lower(bytes);
        let p = hex_lower(bytes.drop_last());
        assert forall|k: int| 0 <= k < h.len() implies is_hex_digit(#[trigger] h[k]) by {
            if k < p.len() {
                assert(h[k] == p[k]);
            }
        }
    }
}

/// `bytes` written as lowercase hex.
pub fn to_hex_lower(bytes: &Vec<u8>) -> (r: String)
    ensures
        r@ == hex_lower(bytes@),
{
    let digits = "0123456789abcdef";
    proof {
        reveal_strlit("0123456789abcdef");
    }
    let mut out = String::new();
    let mut i: usize = 0;
    assert(bytes@.take(0) =~= Seq::<u8>::empty());
    while i < bytes.len()
        invariant
            i <= bytes.len(),
            digits@ == "0123456789abcdef"@,
            digits@.len() == 16,
            out@ == hex_lower(bytes@.take(i as int)),
        decreases bytes.len() - i,
    {
        let b = bytes[i];
        let high = (b / 16) as usize;
        let low = (b % 16) as usize;
        out.append(digits.substring_char(high, high + 1));
        out.append(digits.substring_char(low, low + 1));
        assert(bytes@.take(i + 1).drop_last() =~= bytes@.take(i as int));
        assert(bytes@.take(i + 1).last() == b);
        assert(digits@.subrange(high as int, high + 1) =~= seq![hex_digit(b as int / 16)]);
        assert(digits@.subrange(low as int, low + 1) =~= seq![hex_digit(b as int % 16)]);
        i = i + 1;
        assert(out@ =~= hex_lower(bytes@.take(i as int)));
    }
    assert(bytes@.take(i as int) =~= bytes@);
    out
}

/// The id of an item found at `path` in the category with key `key`.
pub open spec fn id_for(path: Seq<char>, key: Seq<char>) -> Seq<char> {
    hex_lower(sha256_digest(vstd::utf8::encode_utf8(path) + vstd::utf8::encode_utf8(key))).take(16)
}

/// The stable id of an item at `path` in the category with key `category`:
/// the first 16 hex digits of the SHA-256 digest of the UTF-8 bytes of `path`
/// followed by those of `category`.
pub fn hash_id(path: &str, category: &str) -> (r: String)
    ensures
        r@ == hex_lower(sha256_digest(path.spec_bytes() + category.spec_bytes())).take(16),
        r@ == id_for(path@, category@),
        r@.len() == 16,
        forall|k: int| 0 <= k < 16 ==> is_hex_digit(#[trigger] r@[k]),
{
    let first = path.as_bytes();
    let second = category.as_bytes();
    let mut data: Vec<u8> = Vec::new();
    let mut i: usize = 0;
    while i < first.len()
        invariant
            i <= first@.len(),
            data@ == first@.take(i as int),
        decreases first@.len() - i,
    {
        data.push(first[i]);
        i = i + 1;
        assert(data@ =~= first@.take(i as int));
    }
    assert(first@.take(i as int) =~= first@);
    let mut j: usize = 0;
    while j < second.len()
        invariant
            j <= second@.len(),
            data@ == first@ + second@.take(j as int),
        decreases second@.len() - j,
    {
        data.push(second[j]);
        j = j + 1;
        assert(data@ =~= first@ + second@.take(j as int));
    }
    assert(second@.take(j as int) =~= second@);
    let digest = sha256(data.as_slice());
    let hex = to_hex_lower(&digest);
    proof {
        lemma_hex_lower_len(digest@);
    }
    let prefix = hex.as_str().substring_char(0, 16);
    String::from_str(prefix)
}

} // verus!
