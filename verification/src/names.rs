//! Common HTTP header names as constants.

use vstd::prelude::*;

verus! {

pub const HOST: &'static str = "host";

pub const CONTENT_TYPE: &'static str = "content-type";

pub const CONTENT_LENGTH: &'static str = "content-length";

pub const USER_AGENT: &'static str = "user-agent";

pub const ACCEPT: &'static str = "accept";

pub const ACCEPT_ENCODING: &'static str = "accept-encoding";

pub const AUTHORIZATION: &'static str = "authorization";

pub const COOKIE: &'static str = "cookie";

pub const SET_COOKIE: &'static str = "set-cookie";

pub const CACHE_CONTROL: &'static str = "cache-control";

pub const X_FORWARDED_FOR: &'static str = "x-forwarded-for";

pub const X_REAL_IP: &'static str = "x-real-ip";

pub const X_REQUEST_ID: &'static str = "x-request-id";

pub const X_CORRELATION_ID: &'static str = "x-correlation-id";

} // verus!
