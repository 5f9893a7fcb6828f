//! Error types of the client.
use crate::text::{decimal, decimal_text};
use vstd::prelude::*;

verus! {

/// Everything that can go wrong in an operation against the remote service.
#[derive(Debug, Clone)]
pub enum SfError {
    /// The transport failed (DNS, refused connection, dropped connection).
    Network(String),
    /// A payload could not be encoded or decoded.
    Serialization(String),
    /// The service answered with a status outside the success range.
    Api { status: u16, body: String },
    /// Credentials were refused or no authentication method is available.
    Auth(String),
    /// The request rate quota is exhausted; `retry_after` is in seconds.
    RateLimit { retry_after: Option<u64> },
    /// The addressed record does not exist.
    NotFound { sobject: String, id: String },
    /// The query text was rejected.
    InvalidQuery(String),
    /// The client was configured inconsistently.
    Config(String),
    /// The result cache could not store an entry.
    Cache(String),
    /// An operation ran past its deadline.
    Timeout { seconds: u64 },
}

/// Result of an operation against the remote service.
pub type SfResult<T> = Result<T, SfError>;

/// An optional count as `Some(n)` or `None`.
pub open spec fn optional_text(o: Option<u64>) -> Seq<char> {
    match o {
        Some(n) => "Some("@ + decimal(n as nat) + ")"@,
        None => "None"@,
    }
}

/// The human-readable description of an error.
pub open spec fn message_text(e: SfError) -> Seq<char> {
    match e {
        SfError::Network(m) => "Network error: "@ + m@,
        SfError::Serialization(m) => "Serialization error: "@ + m@,
        SfError::Api { status, body } => "API error (status "@ + decimal(status as nat) + "): "@
            + body@,
        SfError::Auth(m) => "Authentication error: "@ + m@,
        SfError::RateLimit { retry_after } => "Rate limit exceeded. Retry after "@ + optional_text(
            retry_after,
        ) + " seconds"@,
        SfError::NotFound { sobject, id } => "Record not found: "@ + sobject@ + " with id "@ + id@,
        SfError::InvalidQuery(m) => "Invalid query: "@ + m@,
        SfError::Config(m) => "Configuration error: "@ + m@,
        SfError::Cache(m) => "Cache error: "@ + m@,
        SfError::Timeout { seconds } => "Operation timed out after "@ + decimal(seconds as nat)
            + " seconds"@,
    }
}

fn labelled(label: &str, detail: &str) -> (r: String)
    ensures
        r@ == label@ + detail@,
{
    let mut out = label.to_owned();
    out.append(detail);
    out
}

impl SfError {
    /// The human-readable description of the error.
    pub fn message(&self) -> (r: String)
        ensures
            r@ == message_text(*self),
    {
        match self {
            SfError::Network(m) => labelled("Network error: ", m.as_str()),
            SfError::Serialization(m) => labelled("Serialization error: ", m.as_str()),
            SfError::Api { status, body } => {
                let mut out = labelled("API error (status ", decimal_text(*status as u64).as_str());
                out.append("): ");
                out.append(body.as_str());
                out
            },
            SfError::Auth(m) => labelled("Authentication error: ", m.as_str()),
            SfError::RateLimit { retry_after } => {
                let mut out = "Rate limit exceeded. Retry after ".to_owned();
                match retry_after {
                    Some(n) => {
                        out.append("Some(");
                        out.append(decimal_text(*n).as_str());
                        out.append(")");
                    },
                    None => out.append("None"),
                }
                out.append(" seconds");
                out
            },
            SfError::NotFound { sobject, id } => {
                let mut out = labelled("Record not found: ", sobject.as_str());
                out.append(" with id ");
                out.append(id.as_str());
                out
            },
            SfError::InvalidQuery(m) => labelled("Invalid query: ", m.as_str()),
            SfError::Config(m) => labelled("Configuration error: ", m.as_str()),
            SfError::Cache(m) => labelled("Cache error: ", m.as_str()),
            SfError::Timeout { seconds } => {
                let mut out = labelled("Operation timed out after ", decimal_text(*seconds).as_str());
                out.append(" seconds");
                out
            },
        }
    }
}

} // verus!
