//! Checksum verification of downloaded archives: the expected digest
//! is the first token of the published checksum file, lowered;
//! the actual digest is the hex of the data's SHA-256.

use vstd::prelude::*;
use vstd::string::StrSliceExecFns;
use crate::strutil::{spec_lower, to_ascii_lowercase, str_eq};
use sha2::Digest;

verus! {

/// The SHA-256 digest of a byte sequence.
pub uninterp spec fn spec_sha256(data: Seq<u8>) -> Seq<u8>;

/// Relies on sha2's `Sha256`: the 32-byte digest is a function of the
/// input bytes alone.
#[verifier::external_body]
pub fn sha256_digest(data: &[u8]) -> (r: Vec<u8>)
    ensures
        r@ == spec_sha256(data@),
        r@.len() == 32,
{
    let mut hasher = sha2::Sha256::new();
    hasher.update(data);
    hasher.finalize().to_vec()
}

/// The lowercase hex digit for a value below 16.
pub open spec fn spec_hex_digit(d: nat) -> char {
    if d == 0 { '0' } else if d == 1 { '1' } else if d == 2 { '2' }
    else if d == 3 { '3' } else if d == 4 { '4' } else if d == 5 { '5' }
    else if d == 6 { '6' } else if d == 7 { '7' } else if d == 8 { '8' }
    else if d == 9 { '9' } else if d == 10 { 'a' } else if d == 11 { 'b' }
    else if d == 12 { 'c' } else if d == 13 { 'd' } else if d == 14 { 'e' }
    else { 'f' }
}

/// Lowercase hex of a byte sequence: two digits per byte, high
/// nibble first.
pub open spec fn spec_hex_of(data: Seq<u8>) -> Seq<char>
    decreases data.len(),
{
    if data.len() == 0 {
        Seq::empty()
    } else {
        spec_hex_of(data.drop_last())
            + seq![spec_hex_digit((data.last() / 16) as nat),
                spec_hex_digit((data.last() % 16) as nat)]
    }
}

/// Relies on hex's `encode`: two lowercase digits per input byte,
/// high nibble first, as its encoding table writes them.
#[verifier::external_body]
pub fn hex_encode(data: &[u8]) -> (r: String)
    ensures
        r@ == spec_hex_of(data@),
{
    hex::encode(data)
}

/// Whitespace as checksum files delimit their fields: space, tab,
/// carriage return and newline.
pub open spec fn spec_is_ws(c: char) -> bool {
    c == ' ' || c == '\t' || c == '\r' || c == '\n'
}

/// The first whitespace-delimited token of a text, if any.
pub open spec fn spec_first_token(s: Seq<char>) -> Option<Seq<char>>
    decreases s.len(),
{
    if s.len() == 0 {
        None
    } else if spec_is_ws(s[0]) {
        spec_first_token(s.subrange(1, s.len() as int))
    } else {
        Some(spec_take_until_ws(s))
    }
}

/// The longest whitespace-free prefix.
pub open spec fn spec_take_until_ws(s: Seq<char>) -> Seq<char>
    decreases s.len(),
{
    if s.len() == 0 || spec_is_ws(s[0]) {
        Seq::empty()
    } else {
        seq![s[0]] + spec_take_until_ws(s.subrange(1, s.len() as int))
    }
}

/// Whitespace test for the four delimiters of checksum files.
fn is_ws(c: char) -> (r: bool)
    ensures
        r == spec_is_ws(c),
{
    c == ' ' || c == '\t' || c == '\r' || c == '\n'
}

/// The first whitespace-delimited token of a text.
pub fn first_token(s: &str) -> (r: Option<&str>)
    ensures
        match r {
            Some(t) => spec_first_token(s@) == Some(t@),
            None => spec_first_token(s@) is None,
        },
{
    let len = s.unicode_len();
    proof {
        assert(s@.subrange(0, len as int) =~= s@);
    }
    let mut i: usize = 0;
    while i < len && is_ws(s.get_char(i))
        invariant
            i <= len,
            len == s@.len(),
            spec_first_token(s@) == spec_first_token(s@.subrange(i as int, len as int)),
        decreases len - i,
    {
        proof {
            let cur = s@.subrange(i as int, len as int);
            assert(cur[0] == s@[i as int]);
            assert(cur.subrange(1, cur.len() as int)
                =~= s@.subrange((i + 1) as int, len as int));
        }
        i = i + 1;
    }
    if i == len {
        proof {
            assert(s@.subrange(len as int, len as int).len() == 0);
        }
        return None;
    }
    let start = i;
    let ghost rest = s@.subrange(start as int, len as int);
    proof {
        assert(rest[0] == s@[start as int]);
        assert(!spec_is_ws(rest[0]));
        assert(spec_first_token(s@) == Some(spec_take_until_ws(rest)));
    }
    let mut j: usize = start;
    while j < len && !is_ws(s.get_char(j))
        invariant
            start <= j <= len,
            len == s@.len(),
            rest == s@.subrange(start as int, len as int),
            spec_take_until_ws(rest)
                == s@.subrange(start as int, j as int)
                    + spec_take_until_ws(s@.subrange(j as int, len as int)),
        decreases len - j,
    {
        proof {
            let cur = s@.subrange(j as int, len as int);
            assert(cur[0] == s@[j as int]);
            assert(cur.subrange(1, cur.len() as int)
                =~= s@.subrange((j + 1) as int, len as int));
            assert(spec_take_until_ws(cur)
                =~= seq![s@[j as int]] + spec_take_until_ws(
                    s@.subrange((j + 1) as int, len as int)));
            assert(s@.subrange(start as int, (j + 1) as int)
                =~= s@.subrange(start as int, j as int) + seq![s@[j as int]]);
        }
        j = j + 1;
    }
    proof {
        let cur = s@.subrange(j as int, len as int);
        if j < len {
            assert(cur[0] == s@[j as int]);
        }
        assert(spec_take_until_ws(cur) =~= Seq::<char>::empty());
        assert(spec_take_until_ws(rest) =~= s@.subrange(start as int, j as int));
    }
    Some(s.substring_char(start, j))
}

/// True when the published checksum text names the data's SHA-256:
/// the text's first token, ASCII-lowered when it is ASCII, equals the
/// lowercase hex of the digest.  Text without a token matches nothing.
pub fn checksum_matches(checksum_text: &str, data: &[u8]) -> (r: bool)
    ensures
        r == (match spec_first_token(checksum_text@) {
            Some(t) => (if vstd::utf8::is_ascii_chars(t) { spec_lower(t) } else { t })
                == spec_hex_of(spec_sha256(data@)),
            None => false,
        }),
{
    let token = match first_token(checksum_text) {
        Some(t) => t,
        None => {
            return false;
        },
    };
    let expected: String = if token.is_ascii() {
        to_ascii_lowercase(token)
    } else {
        token.to_owned()
    };
    let digest = sha256_digest(data);
    let actual = hex_encode(digest.as_slice());
    str_eq(expected.as_str(), actual.as_str())
}

} // verus!
