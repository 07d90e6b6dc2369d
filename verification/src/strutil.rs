//! Small verified string helpers used across the crate: equality,
//! prefix tests, ASCII lowering and decimal formatting.

use vstd::prelude::*;
use vstd::string::StrSliceExecFns;
use vstd::string::StringExecFns;

verus! {

/// Character-wise string equality.
pub fn str_eq(a: &str, b: &str) -> (r: bool)
    ensures
        r == (a@ == b@),
{
    let alen = a.unicode_len();
    let blen = b.unicode_len();
    if alen != blen {
        return false;
    }
    let mut i: usize = 0;
    while i < alen
        invariant
            i <= alen,
            alen == a@.len(),
            alen == b@.len(),
            forall|j: int| 0 <= j < i ==> a@[j] == b@[j],
        decreases alen - i,
    {
        if a.get_char(i) != b.get_char(i) {
            return false;
        }
        i = i + 1;
    }
    proof {
        assert(a@ =~= b@);
    }
    true
}

/// True when `p` is a prefix of `s`.
pub open spec fn spec_has_prefix(s: Seq<char>, p: Seq<char>) -> bool {
    p.len() <= s.len() && s.subrange(0, p.len() as int) == p
}

/// Prefix test, character by character.
pub fn str_has_prefix(s: &str, p: &str) -> (r: bool)
    ensures
        r == spec_has_prefix(s@, p@),
{
    let slen = s.unicode_len();
    let plen = p.unicode_len();
    if plen > slen {
        assert(!spec_has_prefix(s@, p@));
        return false;
    }
    let mut i: usize = 0;
    while i < plen
        invariant
            i <= plen,
            plen <= slen,
            slen == s@.len(),
            plen == p@.len(),
            forall|j: int| 0 <= j < i ==> s@[j] == p@[j],
        decreases plen - i,
    {
        if s.get_char(i) != p.get_char(i) {
            proof {
                assert(s@.subrange(0, p@.len() as int)[i as int] == s@[i as int]);
            }
            return false;
        }
        i = i + 1;
    }
    proof {
        assert(s@.subrange(0, p@.len() as int) =~= p@);
    }
    true
}

/// True when `sub` occurs in `s` at offset `i`.
pub open spec fn spec_occurs_at(s: Seq<char>, sub: Seq<char>, i: int) -> bool {
    0 <= i && i + sub.len() <= s.len() && s.subrange(i, i + sub.len() as int) == sub
}

/// Substring test: true when `sub` occurs anywhere in `s`.
pub fn str_contains(s: &str, sub: &str) -> (r: bool)
    ensures
        r == exists|i: int| spec_occurs_at(s@, sub@, i),
{
    let slen = s.unicode_len();
    let sublen = sub.unicode_len();
    if sublen > slen {
        proof {
            assert(forall|i: int| !spec_occurs_at(s@, sub@, i));
        }
        return false;
    }
    if sublen == 0 {
        proof {
            assert(s@.subrange(0, 0) =~= sub@);
            assert(spec_occurs_at(s@, sub@, 0));
        }
        return true;
    }
    let mut i: usize = 0;
    while i <= slen - sublen
        invariant
            i <= slen - sublen + 1,
            0 < sublen <= slen,
            slen == s@.len(),
            sublen == sub@.len(),
            forall|k: int| 0 <= k < i ==> !spec_occurs_at(s@, sub@, k),
        decreases slen - sublen - i + 1,
    {
        let mut j: usize = 0;
        let mut matched = true;
        while j < sublen && matched
            invariant
                j <= sublen,
                i + sublen <= slen,
                slen == s@.len(),
                sublen == sub@.len(),
                matched ==> forall|k: int| 0 <= k < j ==> s@[i + k] == sub@[k],
                !matched ==> !spec_occurs_at(s@, sub@, i as int),
            decreases sublen - j + (if matched { 1int } else { 0int }),
        {
            if s.get_char(i + j) != sub.get_char(j) {
                matched = false;
                proof {
                    assert(!spec_occurs_at(s@, sub@, i as int)) by {
                        if spec_occurs_at(s@, sub@, i as int) {
                            assert(s@.subrange(i as int, i + sub@.len() as int)[j as int]
                                == s@[i + j]);
                        }
                    }
                }
            } else {
                j = j + 1;
            }
        }
        if matched {
            proof {
                assert(s@.subrange(i as int, i + sub@.len() as int) =~= sub@);
                assert(spec_occurs_at(s@, sub@, i as int));
            }
            return true;
        }
        i = i + 1;
    }
    proof {
        assert forall|k: int| !spec_occurs_at(s@, sub@, k) by {
            if 0 <= k < i {
            } else if spec_occurs_at(s@, sub@, k) {
                assert(k + sub@.len() <= s@.len());
            }
        }
    }
    false
}

/// The decimal digits of `n`, most significant first.
pub open spec fn spec_decimal(n: nat) -> Seq<char>
    decreases n,
{
    if n < 10 {
        seq![spec_digit_char(n)]
    } else {
        spec_decimal(n / 10) + seq![spec_digit_char(n % 10)]
    }
}

/// The character for one decimal digit.
pub open spec fn spec_digit_char(d: nat) -> char {
    if d == 0 { '0' } else if d == 1 { '1' } else if d == 2 { '2' }
    else if d == 3 { '3' } else if d == 4 { '4' } else if d == 5 { '5' }
    else if d == 6 { '6' } else if d == 7 { '7' } else if d == 8 { '8' }
    else { '9' }
}

/// One decimal digit as a string slice.
fn digit_str(d: u64) -> (r: &'static str)
    requires
        d < 10,
    ensures
        r@ == seq![spec_digit_char(d as nat)],
{
    let r = match d {
        0 => "0",
        1 => "1",
        2 => "2",
        3 => "3",
        4 => "4",
        5 => "5",
        6 => "6",
        7 => "7",
        8 => "8",
        _ => "9",
    };
    proof {
        reveal_strlit("0");
        reveal_strlit("1");
        reveal_strlit("2");
        reveal_strlit("3");
        reveal_strlit("4");
        reveal_strlit("5");
        reveal_strlit("6");
        reveal_strlit("7");
        reveal_strlit("8");
        reveal_strlit("9");
        assert(r@ =~= seq![spec_digit_char(d as nat)]);
    }
    r
}

/// Format `n` in decimal.
pub fn u64_to_string(n: u64) -> (s: String)
    ensures
        s@ == spec_decimal(n as nat),
    decreases n,
{
    if n < 10 {
        let mut s = String::new();
        s.append(digit_str(n));
        proof {
            assert(s@ =~= spec_decimal(n as nat));
        }
        s
    } else {
        let mut s = u64_to_string(n / 10);
        s.append(digit_str(n % 10));
        proof {
            assert(s@ =~= spec_decimal(n as nat));
        }
        s
    }
}

/// Lexicographic order on character sequences by code point, which
/// is the order std gives strings: a prefix comes before its
/// extensions, and the first differing character decides.
pub open spec fn spec_str_le(a: Seq<char>, b: Seq<char>) -> bool
    decreases a.len(),
{
    if a.len() == 0 {
        true
    } else if b.len() == 0 {
        false
    } else if (a[0] as u32) != (b[0] as u32) {
        (a[0] as u32) < (b[0] as u32)
    } else {
        spec_str_le(a.subrange(1, a.len() as int), b.subrange(1, b.len() as int))
    }
}

/// The order is total: of any two sequences, one comes first.
pub proof fn lemma_str_le_total(a: Seq<char>, b: Seq<char>)
    ensures
        spec_str_le(a, b) || spec_str_le(b, a),
    decreases a.len(),
{
    if a.len() > 0 && b.len() > 0 && (a[0] as u32) == (b[0] as u32) {
        lemma_str_le_total(a.subrange(1, a.len() as int), b.subrange(1, b.len() as int));
    }
}

/// The order is transitive.
pub proof fn lemma_str_le_trans(a: Seq<char>, b: Seq<char>, c: Seq<char>)
    requires
        spec_str_le(a, b),
        spec_str_le(b, c),
    ensures
        spec_str_le(a, c),
    decreases a.len(),
{
    if a.len() == 0 {
    } else if b.len() == 0 || c.len() == 0 {
    } else if (a[0] as u32) == (b[0] as u32) && (b[0] as u32) == (c[0] as u32) {
        lemma_str_le_trans(a.subrange(1, a.len() as int), b.subrange(1, b.len() as int),
            c.subrange(1, c.len() as int));
    } else {
        assert((a[0] as u32) <= (b[0] as u32));
        assert((b[0] as u32) <= (c[0] as u32));
        assert((a[0] as u32) < (c[0] as u32));
    }
}

/// Compare two strings in lexicographic order.
pub fn str_le(a: &str, b: &str) -> (r: bool)
    ensures
        r == spec_str_le(a@, b@),
{
    let alen = a.unicode_len();
    let blen = b.unicode_len();
    proof {
        assert(a@.subrange(0, alen as int) =~= a@);
        assert(b@.subrange(0, blen as int) =~= b@);
    }
    let mut i: usize = 0;
    while i < alen && i < blen && (a.get_char(i) as u32) == (b.get_char(i) as u32)
        invariant
            i <= alen,
            i <= blen,
            alen == a@.len(),
            blen == b@.len(),
            forall|k: int| 0 <= k < i ==> (a@[k] as u32) == (b@[k] as u32),
            spec_str_le(a@, b@) == spec_str_le(a@.subrange(i as int, alen as int),
                b@.subrange(i as int, blen as int)),
        decreases alen - i,
    {
        proof {
            let ta = a@.subrange(i as int, alen as int);
            let tb = b@.subrange(i as int, blen as int);
            assert(ta[0] == a@[i as int]);
            assert(tb[0] == b@[i as int]);
            assert(ta.subrange(1, ta.len() as int)
                =~= a@.subrange((i + 1) as int, alen as int));
            assert(tb.subrange(1, tb.len() as int)
                =~= b@.subrange((i + 1) as int, blen as int));
        }
        i = i + 1;
    }
    proof {
        let ta = a@.subrange(i as int, alen as int);
        let tb = b@.subrange(i as int, blen as int);
        if i < alen {
            assert(ta[0] == a@[i as int]);
        }
        if i < blen {
            assert(tb[0] == b@[i as int]);
        }
    }
    if i == alen {
        true
    } else if i == blen {
        false
    } else {
        (a.get_char(i) as u32) < (b.get_char(i) as u32)
    }
}

/// Strings joined with a separator between each pair.
pub open spec fn spec_join_with(xs: Seq<String>, sep: Seq<char>) -> Seq<char>
    decreases xs.len(),
{
    if xs.len() == 0 {
        Seq::empty()
    } else if xs.len() == 1 {
        xs[0]@
    } else {
        spec_join_with(xs.drop_last(), sep) + sep + xs.last()@
    }
}

/// Join strings with a separator.
pub fn join_with(xs: &Vec<String>, sep: &str) -> (r: String)
    ensures
        r@ == spec_join_with(xs@, sep@),
{
    let n = xs.len();
    let mut out = String::new();
    let mut i: usize = 0;
    while i < n
        invariant
            i <= n,
            n == xs@.len(),
            out@ == spec_join_with(xs@.subrange(0, i as int), sep@),
        decreases n - i,
    {
        if i > 0 {
            out.append(sep);
        }
        out.append(xs[i].as_str());
        proof {
            assert(xs@.subrange(0, (i + 1) as int).drop_last() =~= xs@.subrange(0, i as int));
            assert(xs@.subrange(0, (i + 1) as int).last() == xs@[i as int]);
            if i == 0 {
                assert(xs@.subrange(0, 1).len() == 1);
            }
        }
        i = i + 1;
    }
    proof {
        assert(xs@.subrange(0, n as int) =~= xs@);
    }
    out
}

/// ASCII lowering of one character; everything else is unchanged.
pub open spec fn spec_lower_char(c: char) -> char {
    if 'A' <= c && c <= 'Z' {
        ((c as u8) + 0x20) as char
    } else {
        c
    }
}

/// ASCII lowering of a character sequence.
pub open spec fn spec_lower(s: Seq<char>) -> Seq<char> {
    s.map_values(|c: char| spec_lower_char(c))
}

/// Lower one ASCII character.
pub fn lower_char(c: char) -> (r: char)
    requires
        c as u32 <= 0x7f,
    ensures
        r == spec_lower_char(c),
{
    if 'A' <= c && c <= 'Z' {
        (((c as u8) + 0x20) as char)
    } else {
        c
    }
}

/// ASCII-lower a string; requires the input to be ASCII.
pub fn to_ascii_lowercase(s: &str) -> (r: String)
    requires
        s.is_ascii(),
    ensures
        r@ == spec_lower(s@),
{
    proof {
        vstd::string::is_ascii_spec_bytes(s);
    }
    let len = s.unicode_len();
    let mut out = String::new();
    let mut i: usize = 0;
    while i < len
        invariant
            i <= len,
            len == s@.len(),
            s.is_ascii(),
            out@ =~= spec_lower(s@.subrange(0, i as int)),
        decreases len - i,
    {
        proof {
            vstd::string::is_ascii_spec_bytes(s);
        }
        let b = s.get_ascii(i);
        let c: char = b as char;
        proof {
            assert(s@[i as int] as u8 == b);
            assert(forall|k: int| 0 <= k < s@.len() ==> (s@[k] as u32) < 128);
            assert(c == s@[i as int]);
        }
        let lc = lower_char(c);
        let mut tmp = String::new();
        string_push_char(&mut tmp, lc);
        out.append(tmp.as_str());
        proof {
            assert(out@ =~= spec_lower(s@.subrange(0, (i + 1) as int)));
        }
        i = i + 1;
    }
    proof {
        assert(s@.subrange(0, len as int) =~= s@);
    }
    out
}

/// Relies on `String::push` from std: appends exactly one character.
#[verifier::external_body]
pub fn string_push_char(s: &mut String, c: char)
    ensures
        final(s)@ == old(s)@.push(c),
{
    s.push(c);
}

} // verus!
