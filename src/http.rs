//! The requests the client sends and how it reads the status of what comes
//! back. Sending is left to the transport; this module only describes.
use crate::error::{SfError, SfResult};
use vstd::prelude::*;

verus! {

#[derive(Debug, Clone, Copy, PartialEq, Eq)]
pub enum HttpMethod {
    Get,
    Post,
    Patch,
    Delete,
}

/// One request for the transport. `form` is sent url-encoded as the body;
/// a JSON record body, where there is one, is supplied by the caller.
#[derive(Debug)]
pub struct HttpRequest {
    pub method: HttpMethod,
    pub url: String,
    pub headers: Vec<(String, String)>,
    pub query: Vec<(String, String)>,
    pub form: Vec<(String, String)>,
}

pub open spec fn pair_views(v: Seq<(String, String)>) -> Seq<(Seq<char>, Seq<char>)> {
    v.map_values(|p: (String, String)| (p.0@, p.1@))
}

/// Whether a status is in the success range.
pub open spec fn success_status(status: u16) -> bool {
    200 <= status <= 299
}

/// Whether `status` is a success status.
pub fn is_success(status: u16) -> (r: bool)
    ensures
        r == success_status(status),
{
    200 <= status && status <= 299
}

/// `Bearer ` followed by the token.
pub open spec fn bearer_text(token: Seq<char>) -> Seq<char> {
    "Bearer "@ + token
}

/// The `Authorization` header for `token`.
pub fn bearer_header(token: &str) -> (r: (String, String))
    ensures
        r.0@ == "Authorization"@,
        r.1@ == bearer_text(token@),
{
    let mut value = "Bearer ".to_owned();
    value.append(token);
    ("Authorization".to_owned(), value)
}

/// The `Content-Type` header of a JSON body.
pub fn json_content_header() -> (r: (String, String))
    ensures
        r.0@ == "Content-Type"@,
        r.1@ == "application/json"@,
{
    ("Content-Type".to_owned(), "application/json".to_owned())
}

/// The value of a decimal digit character.
pub open spec fn digit_value(c: char) -> nat {
    (c as u32 - '0' as u32) as nat
}

pub open spec fn all_digits(s: Seq<char>) -> bool {
    forall|i: int| 0 <= i < s.len() ==> '0' <= #[trigger] s[i] <= '9'
}

/// The number written by the decimal digits `s`.
pub open spec fn digits_value(s: Seq<char>) -> nat
    decreases s.len(),
{
    if s.len() == 0 {
        0
    } else {
        digits_value(s.drop_last()) * 10 + digit_value(s.last())
    }
}

/// What reading `s` as an unsigned 64-bit decimal gives: an optional `+`
/// then one or more digits whose value fits.
pub open spec fn parsed_u64(s: Seq<char>) -> Option<u64> {
    let d = if s.len() > 0 && s[0] == '+' {
        s.drop_first()
    } else {
        s
    };
    if d.len() > 0 && all_digits(d) && digits_value(d) <= u64::MAX {
        Some(digits_value(d) as u64)
    } else {
        None
    }
}

/// Relies on `str::parse::<u64>`: documented to accept an optional `+`
/// followed by decimal digits, and to fail on anything else or on overflow.
#[verifier::external_body]
fn parse_u64(s: &str) -> (r: Option<u64>)
    ensures
        r == parsed_u64(s@),
{
    s.parse::<u64>().ok()
}

/// The number of seconds in a `Retry-After` header value, when it is one.
pub fn retry_after_secs(value: Option<&str>) -> (r: Option<u64>)
    ensures
        r == match value {
            Some(v) => parsed_u64(v@),
            None => None,
        },
{
    match value {
        Some(v) => parse_u64(v),
        None => None,
    }
}

/// `Ok` for a success status; otherwise an `Api` error carrying the status
/// and the body.
pub fn check_status(status: u16, body: String) -> (r: SfResult<()>)
    ensures
        r is Ok <==> success_status(status),
        !success_status(status) ==> api_error(r, status, body@),
{
    if is_success(status) {
        Ok(())
    } else {
        Err(SfError::Api { status, body })
    }
}

/// Whether `r` is the `Api` error with this status and body.
pub open spec fn api_error<T>(r: SfResult<T>, status: u16, body: Seq<char>) -> bool {
    match r {
        Err(SfError::Api { status: s, body: b }) => s == status && b@ == body,
        _ => false,
    }
}

/// Whether `r` is the `Auth` error with this message.
pub open spec fn auth_error<T>(r: SfResult<T>, message: Seq<char>) -> bool {
    match r {
        Err(SfError::Auth(m)) => m@ == message,
        _ => false,
    }
}

/// Whether `r` is the `RateLimit` error with this delay.
pub open spec fn rate_limit_error<T>(r: SfResult<T>, retry_after: Option<u64>) -> bool {
    match r {
        Err(SfError::RateLimit { retry_after: a }) => a == retry_after,
        _ => false,
    }
}

/// Whether `r` is the `NotFound` error for this record.
pub open spec fn not_found_error<T>(r: SfResult<T>, sobject: Seq<char>, id: Seq<char>) -> bool {
    match r {
        Err(SfError::NotFound { sobject: s, id: i }) => s@ == sobject && i@ == id,
        _ => false,
    }
}

} // verus!
