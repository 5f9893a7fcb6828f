//! A resilient client for a remote record API: SOQL construction, credential
//! lifetime, token-bucket admission, retry with exponential backoff, a
//! time-bounded result cache and cursor-based pagination, each with its
//! behaviour stated and proved. Sending, sleeping and decoding are left to
//! the caller's runtime, which performs the steps these modules decide.
pub mod auth;
pub mod cache;
pub mod client;
pub mod crud;
pub mod error;
pub mod http;
pub mod pagination;
pub mod query_builder;
pub mod rate_limit;
pub mod retry;
pub mod text;

pub use auth::{AccessToken, OAuthCredentials, TokenManager};
pub use cache::{CacheConfig, QueryCache, RecordCache};
pub use client::{ClientConfig, SalesforceClient};
pub use crud::{InsertResponse, UpdateResponse, UpsertBuilder};
pub use error::{SfError, SfResult};
pub use pagination::{PaginatedQuery, QueryOptions};
pub use query_builder::{Complete, CountQueryBuilder, NeedsFrom, QueryBuilder, SubqueryBuilder};
pub use rate_limit::{RateLimitConfig, RateLimiter};
pub use retry::RetryConfig;
