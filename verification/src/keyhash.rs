//! Cache-key derivation: the request's kind, content and context are joined
//! with ":" separators, digested with SHA-256, and rendered as 64 lowercase
//! hexadecimal characters. The composite-string building and the hex
//! rendering are verified; only the digest itself is taken on trust.

use sha2::Digest;
use vstd::prelude::*;
use vstd::string::StrSliceExecFns;
use vstd::string::StringExecFns;
use vstd::string::StringSliceAdditionalSpecFns;
use vstd::utf8::encode_utf8;

verus! {

/// The SHA-256 digest of a byte sequence. The digest is a pure function of
/// the input bytes; its value is not axiomatized here.
pub uninterp spec fn sha256_of(bytes: Seq<u8>) -> Seq<u8>;

/// Relies on sha2::Sha256 (through the Digest trait): the SHA-256 digest of
/// the input's bytes, 32 bytes long, determined by the input alone.
#[verifier::external_body]
fn sha256_digest(input: &str) -> (r: Vec<u8>)
    ensures
        r@ == sha256_of(input.spec_bytes()),
        r@.len() == 32,
{
    sha2::Sha256::digest(input.as_bytes()).to_vec()
}

/// The lowercase hexadecimal character for a value below 16.
pub open spec fn hex_digit(n: int) -> char {
    "0123456789abcdef"@[n]
}

/// The lowercase hexadecimal rendering of a byte sequence, two characters
/// per byte, high nibble first.
pub open spec fn hex_of(bytes: Seq<u8>) -> Seq<char>
    decreases bytes.len(),
{
    if bytes.len() == 0 {
        Seq::<char>::empty()
    } else {
        hex_of(bytes.drop_last()) + seq![
            hex_digit(bytes.last() as int / 16),
            hex_digit(bytes.last() as int % 16),
        ]
    }
}

/// Renders bytes as lowercase hexadecimal.
pub fn to_hex(bytes: &Vec<u8>) -> (r: String)
    ensures
        r@ == hex_of(bytes@),
{
    let table = "0123456789abcdef";
    proof {
        reveal_strlit("0123456789abcdef");
    }
    let mut s = String::new();
    let mut i: usize = 0;
    while i < bytes.len()
        invariant
            table@ == "0123456789abcdef"@,
            table@.len() == 16,
            i <= bytes@.len(),
            s@ == hex_of(bytes@.subrange(0, i as int)),
        decreases bytes@.len() - i,
    {
        let b = bytes[i];
        let hi = (b / 16) as usize;
        let lo = (b % 16) as usize;
        s.append(table.substring_char(hi, hi + 1));
        s.append(table.substring_char(lo, lo + 1));
        proof {
            let prefix = bytes@.subrange(0, i + 1 as int);
            assert(prefix.drop_last() =~= bytes@.subrange(0, i as int));
            assert(table@.subrange(hi as int, hi + 1 as int) =~= seq![hex_digit(hi as int)]);
            assert(table@.subrange(lo as int, lo + 1 as int) =~= seq![hex_digit(lo as int)]);
            assert(s@ =~= hex_of(prefix));
        }
        i = i + 1;
    }
    proof {
        assert(bytes@.subrange(0, bytes@.len() as int) =~= bytes@);
    }
    s
}

/// The composite string hashed into the cache key: kind, content and context
/// (empty when absent), joined by ":".
pub open spec fn key_string(
    kind: Seq<char>,
    content: Seq<char>,
    ctx: Option<Seq<char>>,
) -> Seq<char> {
    kind + ":"@ + content + ":"@ + match ctx {
        Some(c) => c,
        None => Seq::<char>::empty(),
    }
}

/// The cache key of a request: the hex-rendered SHA-256 digest of its
/// composite string.
pub open spec fn cache_key(kind: Seq<char>, content: Seq<char>, ctx: Option<Seq<char>>) -> Seq<
    char,
> {
    hex_of(sha256_of(encode_utf8(key_string(kind, content, ctx))))
}

/// Derives the cache key of a request from its fields.
pub fn compute_cache_key(kind: &String, content: &String, ctx: &Option<String>) -> (r: String)
    ensures
        r@ == cache_key(
            kind@,
            content@,
            match ctx {
                Some(c) => Some(c@),
                None => None,
            },
        ),
{
    let mut s = String::new();
    s.append(kind.as_str());
    s.append(":");
    s.append(content.as_str());
    s.append(":");
    match ctx {
        Some(c) => s.append(c.as_str()),
        None => {},
    }
    proof {
        assert(s@ =~= key_string(
            kind@,
            content@,
            match ctx {
                Some(c) => Some(c@),
                None => None,
            },
        ));
    }
    let digest = sha256_digest(s.as_str());
    to_hex(&digest)
}

} // verus!
