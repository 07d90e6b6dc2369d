//! Client-side pieces that carry no I/O: the gRPC TLS configuration
//! builder and the derivation of a TLS domain name from an endpoint
//! URL.

use vstd::prelude::*;
use vstd::string::StrSliceExecFns;
use crate::strutil::{str_has_prefix, spec_has_prefix};

verus! {

/// The characters with the Unicode `White_Space` property, which is
/// what std's `char::is_whitespace` tests: the ASCII controls tab
/// through carriage return and the space, next line, no-break space,
/// Ogham space mark, the typographic spaces, the line and paragraph
/// separators, narrow no-break space, medium mathematical space and
/// ideographic space.
pub open spec fn spec_is_whitespace(c: char) -> bool {
    let n = c as u32;
    ||| 0x09 <= n <= 0x0D
    ||| n == 0x20
    ||| n == 0x85
    ||| n == 0xA0
    ||| n == 0x1680
    ||| 0x2000 <= n <= 0x200A
    ||| n == 0x2028
    ||| n == 0x2029
    ||| n == 0x202F
    ||| n == 0x205F
    ||| n == 0x3000
}

/// Relies on std's `char::is_whitespace`: true exactly on the
/// `White_Space` characters, as its documentation defines it.
pub assume_specification[ char::is_whitespace ](c: char) -> (r: bool)
    ensures
        r == spec_is_whitespace(c),
;

/// TLS configuration for gRPC agent connections.
#[derive(Debug, Clone)]
pub struct GrpcTlsConfig {
    /// Skip certificate verification; only for testing
    pub insecure_skip_verify: bool,
    /// CA certificate PEM data for verifying the server
    pub ca_cert_pem: Option<Vec<u8>>,
    /// Client certificate PEM data for mTLS
    pub client_cert_pem: Option<Vec<u8>>,
    /// Client key PEM data for mTLS
    pub client_key_pem: Option<Vec<u8>>,
    /// Domain name for TLS SNI and certificate validation
    pub domain_name: Option<String>,
}

impl Default for GrpcTlsConfig {
    /// Verify certificates, no CA override, no client identity, no
    /// explicit domain name.
    fn default() -> (c: GrpcTlsConfig)
        ensures
            !c.insecure_skip_verify,
            c.ca_cert_pem is None,
            c.client_cert_pem is None,
            c.client_key_pem is None,
            c.domain_name is None,
    {
        GrpcTlsConfig {
            insecure_skip_verify: false,
            ca_cert_pem: None,
            client_cert_pem: None,
            client_key_pem: None,
            domain_name: None,
        }
    }
}

impl GrpcTlsConfig {
    /// Fresh configuration with nothing set.
    pub fn new() -> (c: GrpcTlsConfig)
        ensures
            !c.insecure_skip_verify,
            c.ca_cert_pem is None,
            c.client_cert_pem is None,
            c.client_key_pem is None,
            c.domain_name is None,
    {
        GrpcTlsConfig::default()
    }

    /// Set the CA certificate from PEM data.
    pub fn with_ca_cert_pem(self, pem: Vec<u8>) -> (c: GrpcTlsConfig)
        ensures
            c == (GrpcTlsConfig { ca_cert_pem: Some(pem), ..self }),
    {
        GrpcTlsConfig { ca_cert_pem: Some(pem), ..self }
    }

    /// Set the client certificate and key from PEM data, for mTLS.
    pub fn with_client_identity(self, cert_pem: Vec<u8>, key_pem: Vec<u8>)
        -> (c: GrpcTlsConfig)
        ensures
            c == (GrpcTlsConfig {
                client_cert_pem: Some(cert_pem),
                client_key_pem: Some(key_pem),
                ..self
            }),
    {
        GrpcTlsConfig {
            client_cert_pem: Some(cert_pem),
            client_key_pem: Some(key_pem),
            ..self
        }
    }

    /// Set the domain name for TLS SNI and certificate validation.
    pub fn with_domain_name(self, domain: String) -> (c: GrpcTlsConfig)
        ensures
            c == (GrpcTlsConfig { domain_name: Some(domain), ..self }),
    {
        GrpcTlsConfig { domain_name: Some(domain), ..self }
    }

    /// Skip certificate verification; only for testing.
    pub fn with_insecure_skip_verify(self) -> (c: GrpcTlsConfig)
        ensures
            c == (GrpcTlsConfig { insecure_skip_verify: true, ..self }),
    {
        GrpcTlsConfig { insecure_skip_verify: true, ..self }
    }
}

/// The sequence without its leading whitespace.
pub open spec fn spec_trim_start(s: Seq<char>) -> Seq<char>
    decreases s.len(),
{
    if s.len() > 0 && spec_is_whitespace(s[0]) {
        spec_trim_start(s.subrange(1, s.len() as int))
    } else {
        s
    }
}

/// The sequence without its trailing whitespace.
pub open spec fn spec_trim_end(s: Seq<char>) -> Seq<char>
    decreases s.len(),
{
    if s.len() > 0 && spec_is_whitespace(s[s.len() - 1]) {
        spec_trim_end(s.drop_last())
    } else {
        s
    }
}

/// The sequence without leading and trailing whitespace.
pub open spec fn spec_trim(s: Seq<char>) -> Seq<char> {
    spec_trim_end(spec_trim_start(s))
}

/// Index of the first `:` or `/`, or the length when neither occurs.
pub open spec fn spec_first_stop(s: Seq<char>) -> int
    decreases s.len(),
{
    if s.len() == 0 {
        0
    } else if s[0] == ':' || s[0] == '/' {
        0
    } else {
        1 + spec_first_stop(s.subrange(1, s.len() as int))
    }
}

/// The host part of what follows a scheme: everything before the
/// first `:` or `/`; an empty host is no host.
pub open spec fn spec_host(rest: Seq<char>) -> Option<Seq<char>> {
    let k = spec_first_stop(rest);
    if k == 0 {
        None
    } else {
        Some(rest.subrange(0, k))
    }
}

/// The domain a URL yields for TLS SNI: trim, accept only an
/// `https://` or `http://` scheme, then take the host part.
pub open spec fn spec_extract_domain(s: Seq<char>) -> Option<Seq<char>> {
    let t = spec_trim(s);
    if spec_has_prefix(t, "https://"@) {
        spec_host(t.subrange(8, t.len() as int))
    } else if spec_has_prefix(t, "http://"@) {
        spec_host(t.subrange(7, t.len() as int))
    } else {
        None
    }
}

/// The first stop lies within the sequence, stops there, and nothing
/// before it stops.
proof fn lemma_first_stop(s: Seq<char>)
    ensures
        0 <= spec_first_stop(s) <= s.len(),
        spec_first_stop(s) < s.len() ==> (s[spec_first_stop(s)] == ':'
            || s[spec_first_stop(s)] == '/'),
        forall|k: int| 0 <= k < spec_first_stop(s) ==> s[k] != ':' && s[k] != '/',
    decreases s.len(),
{
    if s.len() > 0 && s[0] != ':' && s[0] != '/' {
        let t = s.subrange(1, s.len() as int);
        lemma_first_stop(t);
        assert(forall|k: int| 0 <= k < t.len() ==> t[k] == s[k + 1]);
        assert forall|k: int| 0 <= k < spec_first_stop(s) implies s[k] != ':' && s[k] != '/' by {
            if k > 0 {
                assert(s[k] == t[k - 1]);
            }
        }
    }
}

/// Extract the domain name from an endpoint URL, for TLS SNI.
pub fn extract_domain(address: &str) -> (r: Option<String>)
    ensures
        match r {
            Some(h) => spec_extract_domain(address@) == Some(h@),
            None => spec_extract_domain(address@) is None,
        },
{
    let len = address.unicode_len();
    proof {
        assert(address@.subrange(0, len as int) =~= address@);
    }
    // Trim leading and trailing whitespace.
    let mut lo: usize = 0;
    while lo < len && address.get_char(lo).is_whitespace()
        invariant
            lo <= len,
            len == address@.len(),
            spec_trim_start(address@) == spec_trim_start(address@.subrange(lo as int, len as int)),
        decreases len - lo,
    {
        proof {
            let cur = address@.subrange(lo as int, len as int);
            assert(cur[0] == address@[lo as int]);
            assert(cur.subrange(1, cur.len() as int)
                =~= address@.subrange((lo + 1) as int, len as int));
        }
        lo = lo + 1;
    }
    proof {
        let cur = address@.subrange(lo as int, len as int);
        if lo < len {
            assert(cur[0] == address@[lo as int]);
        }
        assert(spec_trim_start(address@) == cur);
    }
    let mut hi: usize = len;
    while hi > lo && address.get_char(hi - 1).is_whitespace()
        invariant
            lo <= hi <= len,
            len == address@.len(),
            spec_trim_start(address@) == address@.subrange(lo as int, len as int),
            spec_trim(address@) == spec_trim_end(address@.subrange(lo as int, hi as int)),
        decreases hi,
    {
        proof {
            let cur = address@.subrange(lo as int, hi as int);
            assert(cur[cur.len() - 1] == address@[hi - 1]);
            assert(cur.drop_last() =~= address@.subrange(lo as int, (hi - 1) as int));
        }
        hi = hi - 1;
    }
    proof {
        let cur = address@.subrange(lo as int, hi as int);
        if hi > lo {
            assert(cur[cur.len() - 1] == address@[hi - 1]);
        }
        assert(spec_trim(address@) == cur);
    }
    let trimmed = address.substring_char(lo, hi);
    let ghost t = spec_trim(address@);
    let tlen = hi - lo;
    // Accept only an https:// or http:// scheme.
    let skip: usize = if str_has_prefix(trimmed, "https://") {
        proof {
            reveal_strlit("https://");
        }
        8
    } else if str_has_prefix(trimmed, "http://") {
        proof {
            reveal_strlit("https://");
            reveal_strlit("http://");
        }
        7
    } else {
        return None;
    };
    let rest = trimmed.substring_char(skip, tlen);
    let ghost grest = t.subrange(skip as int, t.len() as int);
    // Host: everything before the first ':' or '/'.
    let rlen = tlen - skip;
    let mut k: usize = 0;
    while k < rlen && rest.get_char(k) != ':' && rest.get_char(k) != '/'
        invariant
            k <= rlen,
            rlen == grest.len(),
            rest@ == grest,
            forall|j: int| 0 <= j < k ==> grest[j] != ':' && grest[j] != '/',
        decreases rlen - k,
    {
        k = k + 1;
    }
    proof {
        lemma_first_stop(grest);
        let f = spec_first_stop(grest);
        if f < k {
            assert(grest[f] != ':' && grest[f] != '/');
        }
        if f > k {
            assert(k < rlen);
            assert(grest[k as int] != ':' && grest[k as int] != '/');
        }
        assert(f == k);
    }
    if k == 0 {
        return None;
    }
    let host = rest.substring_char(0, k);
    Some(host.to_owned())
}

} // verus!
