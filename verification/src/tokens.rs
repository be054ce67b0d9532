//! Access-token cache keys: a token is stored under the hex SHA-256 of its text.
use vstd::prelude::*;
use crate::ids::hex_digit;
use sha2::Digest;

verus! {

/// The SHA-256 digest of a byte sequence.
pub uninterp spec fn sha256_digest(data: Seq<u8>) -> Seq<u8>;

/// `Sha256::new()`, `update(data)`, `finalize()` of the sha2 crate: the digest
/// of `data` under SHA-256, which is 32 bytes long. The claim is that the bytes
/// returned are `sha256_digest(data)` and that there are 32 of them.
#[verifier::external_body]
fn sha256(data: &[u8]) -> (d: Vec<u8>)
    ensures
        d@ == sha256_digest(data@),
        d@.len() == 32,
{
    let mut hasher = sha2::Sha256::new();
    hasher.update(data);
    hasher.finalize().to_vec()
}

/// Two lowercase hexadecimal digits per byte, high digit first.
pub open spec fn hex_of(bytes: Seq<u8>) -> Seq<char>
    decreases bytes.len(),
{
    if bytes.len() == 0 {
        seq![]
    } else {
        hex_of(bytes.drop_last()) + seq![
            hex_digit((bytes.last() / 16) as int),
            hex_digit((bytes.last() % 16) as int),
        ]
    }
}

/// The lowercase hexadecimal text of a byte sequence is twice as long as the sequence.
pub proof fn lemma_hex_len(bytes: Seq<u8>)
    ensures
        hex_of(bytes).len() == 2 * bytes.len(),
    decreases bytes.len(),
{
    if bytes.len() > 0 {
        lemma_hex_len(bytes.drop_last());
    }
}

/// The lowercase hexadecimal digit of a value below 16.
pub fn hex_char(n: u8) -> (c: char)
    requires
        n < 16,
    ensures
        c == hex_digit(n as int),
{
    if n == 0 {
        '0'
    } else if n == 1 {
        '1'
    } else if n == 2 {
        '2'
    } else if n == 3 {
        '3'
    } else if n == 4 {
        '4'
    } else if n == 5 {
        '5'
    } else if n == 6 {
        '6'
    } else if n == 7 {
        '7'
    } else if n == 8 {
        '8'
    } else if n == 9 {
        '9'
    } else if n == 10 {
        'a'
    } else if n == 11 {
        'b'
    } else if n == 12 {
        'c'
    } else if n == 13 {
        'd'
    } else if n == 14 {
        'e'
    } else {
        'f'
    }
}

/// The lowercase hexadecimal text of bytes, two digits per byte.
pub fn to_hex_lower(bytes: &[u8]) -> (s: String)
    ensures
        s@ == hex_of(bytes@),
{
    let mut out: Vec<char> = Vec::new();
    let mut i: usize = 0;
    assert(bytes@.take(0) =~= Seq::<u8>::empty());
    while i < bytes.len()
        invariant
            i <= bytes@.len(),
            out@ == hex_of(bytes@.take(i as int)),
        decreases bytes.len() - i,
    {
        let b = bytes[i];
        out.push(hex_char(b / 16));
        out.push(hex_char(b % 16));
        assert(bytes@.take(i + 1).drop_last() =~= bytes@.take(i as int));
        assert(bytes@.take(i + 1).last() == b);
        i = i + 1;
    }
    assert(bytes@.take(bytes@.len() as int) =~= bytes@);
    crate::text::string_of(out.as_slice())
}

/// The hex SHA-256 of a token's UTF-8 bytes.
pub open spec fn token_hash_spec(token: Seq<char>) -> Seq<char> {
    hex_of(sha256_digest(vstd::utf8::encode_utf8(token)))
}

/// Hashes a token with SHA-256 for use as a cache key: 64 lowercase hex digits.
pub fn hash_token(token: &str) -> (h: String)
    ensures
        h@ == token_hash_spec(token@),
        h@.len() == 64,
{
    let d = sha256(token.as_bytes());
    proof {
        lemma_hex_len(d@);
    }
    to_hex_lower(d.as_slice())
}

/// Cache key of a token: `openchat:token:{sha256 hex of the token}`.
pub fn token_cache_key(token: &str) -> (k: String)
    ensures
        k@ == "openchat:token:"@ + token_hash_spec(token@),
{
    let h = hash_token(token);
    let mut s = String::from_str("openchat:token:");
    s.append(h.as_str());
    s
}

} // verus!
