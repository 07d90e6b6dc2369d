//! Pure decision rules of the route-level filters: CORS origin
//! matching and compression eligibility.  The host proxy applies the
//! outcomes to its own request and response types.

use vstd::prelude::*;
use crate::strutil::{str_eq, str_has_prefix, spec_has_prefix, join_with, spec_join_with,
    u64_to_string, spec_decimal};
use vstd::string::StringExecFns;

verus! {

/// True when an allowed-origin entry admits the origin: a literal
/// `*` admits every origin.
pub open spec fn spec_origin_entry_allows(entry: Seq<char>, origin: Seq<char>) -> bool {
    entry == "*"@ || entry == origin
}

/// True when any allowed-origin entry admits the origin.
pub fn is_origin_allowed(origin: &str, allowed: &Vec<String>) -> (r: bool)
    ensures
        r == exists|i: int| 0 <= i < allowed@.len()
            && spec_origin_entry_allows(#[trigger] allowed@[i]@, origin@),
{
    let n = allowed.len();
    let mut i: usize = 0;
    while i < n
        invariant
            i <= n,
            n == allowed@.len(),
            forall|k: int| 0 <= k < i ==> !spec_origin_entry_allows(#[trigger] allowed@[k]@, origin@),
        decreases n - i,
    {
        if str_eq(allowed[i].as_str(), "*") || str_eq(allowed[i].as_str(), origin) {
            return true;
        }
        i = i + 1;
    }
    false
}

/// True when any configured content-type prefix matches the
/// response's content type.
pub fn content_type_compressible(content_type: &str, content_types: &Vec<String>) -> (r: bool)
    ensures
        r == exists|i: int| 0 <= i < content_types@.len()
            && spec_has_prefix(content_type@, #[trigger] content_types@[i]@),
{
    let n = content_types.len();
    let mut i: usize = 0;
    while i < n
        invariant
            i <= n,
            n == content_types@.len(),
            forall|k: int| 0 <= k < i
                ==> !spec_has_prefix(content_type@, #[trigger] content_types@[k]@),
        decreases n - i,
    {
        if str_has_prefix(content_type, content_types[i].as_str()) {
            return true;
        }
        i = i + 1;
    }
    false
}

/// Whether compression should be set up for a response: the content
/// type matches a configured prefix, a known content length is not
/// under the minimum size, and the response is not already encoded.
pub fn compress_eligible(
    content_type: &str,
    content_types: &Vec<String>,
    content_length: Option<usize>,
    min_size: usize,
    already_encoded: bool,
) -> (r: bool)
    ensures
        r == ((exists|i: int| 0 <= i < content_types@.len()
                && spec_has_prefix(content_type@, #[trigger] content_types@[i]@))
            && (match content_length {
                Some(l) => l >= min_size,
                None => true,
            })
            && !already_encoded),
{
    if already_encoded {
        return false;
    }
    if !content_type_compressible(content_type, content_types) {
        return false;
    }
    match content_length {
        Some(l) => l >= min_size,
        None => true,
    }
}

/// Cross-origin filter configuration.
#[derive(Debug, Clone)]
pub struct CorsConfig {
    /// Origins admitted; `*` admits every origin
    pub allowed_origins: Vec<String>,
    /// Methods announced on a preflight
    pub allowed_methods: Vec<String>,
    /// Headers announced on a preflight; empty mirrors the request
    pub allowed_headers: Vec<String>,
    /// Headers exposed on ordinary responses
    pub exposed_headers: Vec<String>,
    /// Whether credentials are allowed
    pub allow_credentials: bool,
    /// Preflight cache lifetime, in seconds
    pub max_age_secs: u64,
}

/// True when a request is a cross-origin preflight: the OPTIONS
/// method together with a requested-method header.
pub fn is_cors_preflight(method: &str, has_request_method_header: bool) -> (r: bool)
    ensures
        r == (method@ == "OPTIONS"@ && has_request_method_header),
{
    str_eq(method, "OPTIONS") && has_request_method_header
}

/// The headers a preflight response carries, in order: the origin,
/// the allowed methods joined by a comma, the allowed headers (the
/// configured list when any, else the request's own list when given),
/// credentials when allowed, the cache lifetime, and a zero length.
pub open spec fn spec_preflight_headers(
    c: CorsConfig,
    origin: Seq<char>,
    requested_headers: Option<Seq<char>>,
) -> Seq<(Seq<char>, Seq<char>)> {
    seq![("Access-Control-Allow-Origin"@, origin),
        ("Access-Control-Allow-Methods"@, spec_join_with(c.allowed_methods@, ", "@))]
        + (if c.allowed_headers@.len() > 0 {
            seq![("Access-Control-Allow-Headers"@, spec_join_with(c.allowed_headers@, ", "@))]
        } else {
            match requested_headers {
                Some(h) => seq![("Access-Control-Allow-Headers"@, h)],
                None => Seq::empty(),
            }
        })
        + (if c.allow_credentials {
            seq![("Access-Control-Allow-Credentials"@, "true"@)]
        } else {
            Seq::empty()
        })
        + seq![("Access-Control-Max-Age"@, spec_decimal(c.max_age_secs as nat)),
            ("Content-Length"@, "0"@)]
}

/// Compute the headers of a preflight response.
pub fn cors_preflight_headers(
    cors: &CorsConfig,
    origin: &String,
    requested_headers: Option<String>,
) -> (r: Vec<(String, String)>)
    ensures
        r@.map_values(|p: (String, String)| (p.0@, p.1@))
            =~= spec_preflight_headers(*cors, origin@, match requested_headers {
                Some(h) => Some(h@),
                None => None,
            }),
{
    let mut out: Vec<(String, String)> = Vec::new();
    out.push((String::from_str("Access-Control-Allow-Origin"), origin.clone()));
    out.push((String::from_str("Access-Control-Allow-Methods"),
        join_with(&cors.allowed_methods, ", ")));
    if cors.allowed_headers.len() > 0 {
        out.push((String::from_str("Access-Control-Allow-Headers"),
            join_with(&cors.allowed_headers, ", ")));
    } else {
        match requested_headers {
            Some(h) => {
                out.push((String::from_str("Access-Control-Allow-Headers"), h));
            },
            None => {},
        }
    }
    if cors.allow_credentials {
        out.push((String::from_str("Access-Control-Allow-Credentials"),
            String::from_str("true")));
    }
    out.push((String::from_str("Access-Control-Max-Age"), u64_to_string(cors.max_age_secs)));
    out.push((String::from_str("Content-Length"), String::from_str("0")));
    out
}

/// The headers added to an ordinary response for an admitted origin:
/// the origin, credentials when allowed, the exposed headers when any,
/// and a vary mark for origin-dependent caching.
pub open spec fn spec_cors_response_headers(c: CorsConfig, origin: Seq<char>)
    -> Seq<(Seq<char>, Seq<char>)> {
    seq![("Access-Control-Allow-Origin"@, origin)]
        + (if c.allow_credentials {
            seq![("Access-Control-Allow-Credentials"@, "true"@)]
        } else {
            Seq::empty()
        })
        + (if c.exposed_headers@.len() > 0 {
            seq![("Access-Control-Expose-Headers"@, spec_join_with(c.exposed_headers@, ", "@))]
        } else {
            Seq::empty()
        })
        + seq![("Vary"@, "Origin"@)]
}

/// Compute the headers added to an ordinary cross-origin response.
pub fn cors_response_headers(cors: &CorsConfig, origin: &String)
    -> (r: Vec<(String, String)>)
    ensures
        r@.map_values(|p: (String, String)| (p.0@, p.1@))
            =~= spec_cors_response_headers(*cors, origin@),
{
    let mut out: Vec<(String, String)> = Vec::new();
    out.push((String::from_str("Access-Control-Allow-Origin"), origin.clone()));
    if cors.allow_credentials {
        out.push((String::from_str("Access-Control-Allow-Credentials"),
            String::from_str("true")));
    }
    if cors.exposed_headers.len() > 0 {
        out.push((String::from_str("Access-Control-Expose-Headers"),
            join_with(&cors.exposed_headers, ", ")));
    }
    out.push((String::from_str("Vary"), String::from_str("Origin")));
    out
}

/// How close a certificate is to its end of validity.
#[derive(Debug, Clone, Copy, PartialEq, Eq, Structural)]
pub enum CertExpiry {
    /// Already past its end of validity
    Expired,
    /// Valid, but ends within the warning window
    ExpiringSoon,
    /// Valid with room to spare
    Valid,
}

/// How long before its end a certificate starts to warn: thirty days.
pub const EXPIRY_WARNING_WINDOW_SECS: u64 = 30 * 86400;

/// Judge a certificate's end of validity against the clock, both as
/// seconds of the same epoch: past is expired, within thirty days
/// warns, anything later is fine.
pub fn cert_expiry_status(not_after_secs: u64, now_secs: u64) -> (r: CertExpiry)
    ensures
        not_after_secs < now_secs ==> r == CertExpiry::Expired,
        not_after_secs >= now_secs
            && not_after_secs - now_secs < EXPIRY_WARNING_WINDOW_SECS
            ==> r == CertExpiry::ExpiringSoon,
        not_after_secs >= now_secs
            && not_after_secs - now_secs >= EXPIRY_WARNING_WINDOW_SECS
            ==> r == CertExpiry::Valid,
{
    if not_after_secs < now_secs {
        CertExpiry::Expired
    } else if not_after_secs - now_secs < EXPIRY_WARNING_WINDOW_SECS {
        CertExpiry::ExpiringSoon
    } else {
        CertExpiry::Valid
    }
}

/// Timeout overrides a timeout filter applies to the request context.
#[derive(Debug, Clone, Copy, PartialEq, Eq, Structural)]
pub struct TimeoutOverride {
    /// Connect timeout override, in seconds
    pub connect_timeout_secs: Option<u64>,
    /// Upstream timeout override, in seconds
    pub upstream_timeout_secs: Option<u64>,
}

/// Apply a timeout filter: present values replace the current
/// overrides, absent ones leave them.
pub fn apply_timeout_override(current: TimeoutOverride, filter: TimeoutOverride)
    -> (r: TimeoutOverride)
    ensures
        r.connect_timeout_secs == (if filter.connect_timeout_secs is Some {
            filter.connect_timeout_secs } else { current.connect_timeout_secs }),
        r.upstream_timeout_secs == (if filter.upstream_timeout_secs is Some {
            filter.upstream_timeout_secs } else { current.upstream_timeout_secs }),
{
    TimeoutOverride {
        connect_timeout_secs: match filter.connect_timeout_secs {
            Some(c) => Some(c),
            None => current.connect_timeout_secs,
        },
        upstream_timeout_secs: match filter.upstream_timeout_secs {
            Some(u) => Some(u),
            None => current.upstream_timeout_secs,
        },
    }
}

} // verus!
