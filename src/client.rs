//! The orchestrator: configuration, and the steps that compose cache,
//! admission, retry and pagination around one logical operation. A read
//! looks in the cache, waits for a permit, sends with retry, and stores the
//! result; a write waits for a permit, sends with retry, and on success
//! empties the cache. The caller's runtime performs the waits and the sends.
use crate::cache::{lookup_allows, opt_bytes, CacheConfig, QueryCache};
use crate::crud::CrudOperations;
use crate::error::{SfError, SfResult};
use crate::http::{
    bearer_header, bearer_text, pair_views, rate_limit_error, retry_after_secs, success_status,
    parsed_u64, HttpMethod, HttpRequest,
};
use crate::rate_limit::{attempt, wait_for, RateLimitConfig, RateLimitStatus, RateLimiter};
use crate::retry::{step_after, RetryConfig, RetryStep};
use vstd::prelude::*;

verus! {

/// Everything the client is configured with.
#[derive(Debug, Clone)]
pub struct ClientConfig {
    /// Root of the instance's endpoints.
    pub base_url: String,
    /// Token sent with every request.
    pub access_token: String,
    /// How failed attempts are retried.
    pub retry_config: RetryConfig,
    /// Size and expiry of the result cache.
    pub cache_config: CacheConfig,
    /// Admission rate.
    pub rate_limit_config: RateLimitConfig,
    /// Whether reads follow later pages.
    pub auto_paginate: bool,
}

impl ClientConfig {
    /// The default configuration for `base_url` and `access_token`.
    pub fn new(base_url: &str, access_token: &str) -> (r: Self)
        ensures
            r.base_url@ == base_url@,
            r.access_token@ == access_token@,
            r.retry_config.max_retries == 3,
            r.retry_config.initial_interval == 500,
            r.cache_config.max_capacity == 10_000,
            r.cache_config.ttl == 300,
            r.rate_limit_config.requests_per_second == 4,
            r.rate_limit_config.burst_size == 10,
            r.auto_paginate,
    {
        ClientConfig {
            base_url: base_url.to_owned(),
            access_token: access_token.to_owned(),
            retry_config: RetryConfig::new(),
            cache_config: CacheConfig::new(),
            rate_limit_config: RateLimitConfig::new(),
            auto_paginate: true,
        }
    }

    /// Replaces the retry policy.
    pub fn with_retry(self, config: RetryConfig) -> (r: Self)
        ensures
            r == (ClientConfig { retry_config: config, ..self }),
    {
        ClientConfig { retry_config: config, ..self }
    }

    /// Replaces the cache configuration.
    pub fn with_cache(self, config: CacheConfig) -> (r: Self)
        ensures
            r == (ClientConfig { cache_config: config, ..self }),
    {
        ClientConfig { cache_config: config, ..self }
    }

    /// Replaces the admission rate.
    pub fn with_rate_limit(self, config: RateLimitConfig) -> (r: Self)
        ensures
            r == (ClientConfig { rate_limit_config: config, ..self }),
    {
        ClientConfig { rate_limit_config: config, ..self }
    }

    /// Reads fetch the first page only.
    pub fn no_pagination(self) -> (r: Self)
        ensures
            r == (ClientConfig { auto_paginate: false, ..self }),
    {
        ClientConfig { auto_paginate: false, ..self }
    }

    /// Everything optional off: no retry, no cache, no limit, one page.
    pub fn minimal() -> (r: Self)
        ensures
            r.base_url@.len() == 0,
            r.access_token@.len() == 0,
            r.retry_config.max_retries == 0,
            r.cache_config.max_capacity == 0,
            r.cache_config.ttl == 0,
            r.rate_limit_config.requests_per_second == u32::MAX,
            !r.auto_paginate,
    {
        ClientConfig {
            base_url: String::new(),
            access_token: String::new(),
            retry_config: RetryConfig::no_retry(),
            cache_config: CacheConfig::disabled(),
            rate_limit_config: RateLimitConfig::unlimited(),
            auto_paginate: false,
        }
    }
}

pub open spec fn query_url_text(base: Seq<char>) -> Seq<char> {
    base + "/services/data/v57.0/query"@
}

/// The client: configuration, result cache, rate limiter and write builder.
pub struct SalesforceClient {
    config: ClientConfig,
    query_cache: QueryCache,
    rate_limiter: RateLimiter,
    crud: CrudOperations,
}

impl SalesforceClient {
    pub closed spec fn wf(&self) -> bool {
        &&& self.query_cache.wf()
        &&& self.rate_limiter.wf()
        &&& self.crud.base_url() == self.config.base_url@
        &&& self.crud.access_token() == self.config.access_token@
    }

    /// The configuration the client was built with.
    pub closed spec fn spec_config(&self) -> ClientConfig {
        self.config
    }

    /// What a cache lookup may hand out.
    pub closed spec fn cached(&self) -> Map<Seq<char>, Seq<u8>> {
        self.query_cache@
    }

    pub closed spec fn caching(&self) -> bool {
        self.query_cache.is_enabled()
    }

    /// The admission bucket.
    pub closed spec fn bucket(&self) -> crate::rate_limit::Bucket {
        self.rate_limiter@
    }

    /// A client for `config`, with an empty cache and a full bucket.
    pub fn new(config: ClientConfig) -> (r: Self)
        requires
            config.cache_config.acceptable(),
        ensures
            r.wf(),
            r.spec_config() == config,
            r.cached() == crate::cache::no_entries(),
            r.caching() == config.cache_config.spec_enabled(),
            r.bucket().enabled == (config.rate_limit_config.requests_per_second < u32::MAX),
            r.bucket().level == r.bucket().capacity,
    {
        let query_cache = QueryCache::new(config.cache_config);
        let rate_limiter = RateLimiter::new(config.rate_limit_config);
        let crud = CrudOperations::new(config.base_url.clone(), config.access_token.clone());
        SalesforceClient { config, query_cache, rate_limiter, crud }
    }

    /// The configuration the client was built with.
    pub fn config(&self) -> (r: &ClientConfig)
        ensures
            *r == self.spec_config(),
    {
        &self.config
    }

    /// The builder of write requests for this instance.
    pub fn crud(&self) -> (r: &CrudOperations)
        requires
            self.wf(),
        ensures
            r.base_url() == self.spec_config().base_url@,
            r.access_token() == self.spec_config().access_token@,
    {
        &self.crud
    }

    /// Step one of a read: the cached result of `soql`, if one is held.
    pub fn cached_query(&self, soql: &str) -> (r: Option<Vec<u8>>)
        requires
            self.wf(),
        ensures
            lookup_allows(self.cached(), soql@, opt_bytes(r)),
            !self.caching() ==> r is None,
    {
        self.query_cache.get(soql)
    }

    /// Admission of one request at clock reading `now` (nanoseconds):
    /// `Ok` takes a permit; `Err` gives the nanoseconds to wait.
    pub fn acquire_at(&mut self, now: u64) -> (r: Result<(), u64>)
        requires
            old(self).wf(),
        ensures
            final(self).wf(),
            final(self).bucket() == attempt(old(self).bucket(), now as nat).0,
            r is Ok == attempt(old(self).bucket(), now as nat).1,
            match r {
                Ok(_) => true,
                Err(w) => w == wait_for(old(self).bucket(), now as nat),
            },
            final(self).cached() == old(self).cached(),
            final(self).caching() == old(self).caching(),
            final(self).spec_config() == old(self).spec_config(),
    {
        self.rate_limiter.check(now)
    }

    /// Whether a request would be admitted at `now`, without taking a permit.
    pub fn rate_limit_status(&self, now: u64) -> (r: RateLimitStatus)
        requires
            self.wf(),
        ensures
            r.available == attempt(self.bucket(), now as nat).1,
    {
        self.rate_limiter.status(now)
    }

    /// The request that runs `soql`: a GET of the query endpoint with the
    /// query as parameter `q`.
    pub fn query_request(&self, soql: &str) -> (r: HttpRequest)
        ensures
            r.method == HttpMethod::Get,
            r.url@ == query_url_text(self.spec_config().base_url@),
            pair_views(r.query@) == seq![("q"@, soql@)],
            pair_views(r.headers@) == seq![
                ("Authorization"@, bearer_text(self.spec_config().access_token@)),
            ],
            r.form@.len() == 0,
    {
        let mut url = self.config.base_url.clone();
        url.append("/services/data/v57.0/query");
        let mut query: Vec<(String, String)> = Vec::new();
        query.push(("q".to_owned(), soql.to_owned()));
        let mut headers: Vec<(String, String)> = Vec::new();
        headers.push(bearer_header(self.config.access_token.as_str()));
        proof {
            assert(pair_views(query@) =~= seq![("q"@, soql@)]);
            assert(pair_views(headers@) =~= seq![
                ("Authorization"@, bearer_text(self.spec_config().access_token@)),
            ]);
        }
        HttpRequest { method: HttpMethod::Get, url, headers, query, form: Vec::new() }
    }

    /// Reads the status of a query response: `Ok` on success; for 429 a
    /// `RateLimit` error with the seconds of the `Retry-After` header when
    /// it holds a number; otherwise an `Api` error with the body.
    pub fn check_query_response(status: u16, retry_after: Option<&str>, body: String) -> (r:
        SfResult<()>)
        ensures
            r is Ok <==> success_status(status),
            status == 429 ==> rate_limit_error(
                r,
                match retry_after {
                    Some(v) => parsed_u64(v@),
                    None => None,
                },
            ),
            status != 429 && !success_status(status) ==> crate::http::api_error(r, status, body@),
    {
        if crate::http::is_success(status) {
            return Ok(());
        }
        if status == 429 {
            return Err(SfError::RateLimit { retry_after: retry_after_secs(retry_after) });
        }
        Err(SfError::Api { status, body })
    }

    /// What the retry loop does after attempt `attempt` failed with `e`,
    /// `elapsed` milliseconds after the first attempt, under the client's policy.
    pub fn retry_step(&self, attempt: u32, e: &SfError, elapsed: u64) -> (r: RetryStep)
        ensures
            r == step_after(self.spec_config().retry_config, attempt, *e, elapsed),
    {
        self.config.retry_config.next_step(attempt, e, elapsed)
    }

    /// Last step of a successful read: keeps the encoded result of `soql`.
    pub fn store_query(&mut self, soql: &str, data: Vec<u8>)
        requires
            old(self).wf(),
        ensures
            final(self).wf(),
            final(self).cached() == (if old(self).caching() {
                old(self).cached().insert(soql@, data@)
            } else {
                old(self).cached()
            }),
            final(self).caching() == old(self).caching(),
            final(self).bucket() == old(self).bucket(),
            final(self).spec_config() == old(self).spec_config(),
    {
        self.query_cache.set(soql, data)
    }

    /// Last step of a successful write: every cached read is dropped.
    pub fn after_write(&mut self)
        requires
            old(self).wf(),
        ensures
            final(self).wf(),
            final(self).cached() == crate::cache::no_entries(),
            final(self).caching() == old(self).caching(),
            final(self).bucket() == old(self).bucket(),
            final(self).spec_config() == old(self).spec_config(),
    {
        self.query_cache.clear()
    }

    /// Drops every cached read.
    pub fn clear_cache(&mut self)
        requires
            old(self).wf(),
        ensures
            final(self).wf(),
            final(self).cached() == crate::cache::no_entries(),
            final(self).caching() == old(self).caching(),
            final(self).bucket() == old(self).bucket(),
            final(self).spec_config() == old(self).spec_config(),
    {
        self.query_cache.clear()
    }
}


/// Where an operation stands.
#[derive(Debug, Clone, Copy, PartialEq, Eq, Structural)]
pub enum Stage {
    /// A read that has not looked in the cache yet.
    Lookup,
    /// Waiting for an admission permit.
    Admit,
    /// An attempt is out; its outcome is awaited.
    Attempting,
    /// Sleeping before the next attempt.
    BackingOff,
    /// Over: nothing more is done.
    Done,
}

/// One logical operation: a cached read of a query, an uncached fetch, or
/// a write.
pub struct Operation {
    query: Option<String>,
    invalidates: bool,
    stage: Stage,
    attempt: u32,
}

pub struct OperationView {
    /// The query of a cached read.
    pub query: Option<Seq<char>>,
    /// Whether success empties the cache (a write).
    pub invalidates: bool,
    pub stage: Stage,
    pub attempt: u32,
}

impl View for Operation {
    type V = OperationView;

    closed spec fn view(&self) -> OperationView {
        OperationView {
            query: crate::query_builder::opt_view(self.query),
            invalidates: self.invalidates,
            stage: self.stage,
            attempt: self.attempt,
        }
    }
}

impl Operation {
    /// A read of `soql`: it starts at the cache, and keeps its result there.
    pub fn read(soql: &str) -> (r: Self)
        ensures
            r@ == (OperationView {
                query: Some(soql@),
                invalidates: false,
                stage: Stage::Lookup,
                attempt: 0,
            }),
    {
        Operation { query: Some(soql.to_owned()), invalidates: false, stage: Stage::Lookup, attempt: 0 }
    }

    /// A fetch that bypasses the cache: it starts at admission and leaves
    /// the cache alone.
    pub fn fetch() -> (r: Self)
        ensures
            r@ == (OperationView { query: None, invalidates: false, stage: Stage::Admit, attempt: 0 }),
    {
        Operation { query: None, invalidates: false, stage: Stage::Admit, attempt: 0 }
    }

    /// A write: it starts at admission, and on success empties the cache.
    pub fn write() -> (r: Self)
        ensures
            r@ == (OperationView { query: None, invalidates: true, stage: Stage::Admit, attempt: 0 }),
    {
        Operation { query: None, invalidates: true, stage: Stage::Admit, attempt: 0 }
    }

    /// Whether the operation is over.
    pub fn is_done(&self) -> (r: bool)
        ensures
            r == (self@.stage == Stage::Done),
    {
        self.stage == Stage::Done
    }
}

/// What the runtime reports when it drives an operation.
pub enum Event {
    /// Start, or the sleep asked for is over.
    Resume,
    /// The outcome of the attempt: the body on success, else the failure.
    Outcome(SfResult<Vec<u8>>),
}

/// What the runtime does next.
#[derive(Debug)]
pub enum Action {
    /// Hand back this cached body; the read is over and nothing was sent.
    Cached(Vec<u8>),
    /// Sleep this many nanoseconds, then resume.
    Wait(u64),
    /// Send attempt number `n`, then report its outcome.
    Send(u32),
    /// Sleep this many milliseconds, then resume.
    Backoff(u64),
    /// The operation failed with this error, passed on unchanged.
    Failed(SfError),
    /// The operation succeeded.
    Completed,
    /// The operation is already over; nothing to do.
    Idle,
}

impl SalesforceClient {
    fn admission(&mut self, op: &mut Operation, now: u64) -> (r: Action)
        requires
            old(self).wf(),
        ensures
            final(self).wf(),
            final(self).bucket() == attempt(old(self).bucket(), now as nat).0,
            final(self).cached() == old(self).cached(),
            final(self).caching() == old(self).caching(),
            final(self).spec_config() == old(self).spec_config(),
            final(op)@.query == old(op)@.query,
            final(op)@.invalidates == old(op)@.invalidates,
            attempt(old(self).bucket(), now as nat).1 ==> r == Action::Send(1) && final(op)@.stage
                == Stage::Attempting && final(op)@.attempt == 1,
            !attempt(old(self).bucket(), now as nat).1 ==> r == Action::Wait(wait_for(
                old(self).bucket(),
                now as nat,
            ) as u64) && final(op)@.stage == Stage::Admit && final(op)@.attempt == old(op)@.attempt,
    {
        match self.acquire_at(now) {
            Ok(()) => {
                op.stage = Stage::Attempting;
                op.attempt = 1;
                Action::Send(1)
            },
            Err(wait) => {
                op.stage = Stage::Admit;
                Action::Wait(wait)
            },
        }
    }

    /// Moves `op` on by one step after `event`, at clock reading `now`
    /// (nanoseconds, for admission) and `elapsed` milliseconds after the
    /// first attempt (for the retry budget). A read first looks in the cache
    /// and on a hit ends with that body, taking no permit; otherwise it
    /// waits for one permit, then attempts until success or the policy gives
    /// up, sleeping the backoff between attempts. On success a read keeps
    /// its body in the cache, a write empties the cache, and a fetch leaves
    /// it alone; a failure is handed on unchanged.
    pub fn advance(&mut self, op: &mut Operation, event: Event, now: u64, elapsed: u64) -> (r:
        Action)
        requires
            old(self).wf(),
        ensures
            final(self).wf(),
            final(self).spec_config() == old(self).spec_config(),
            final(self).caching() == old(self).caching(),
            final(op)@.query == old(op)@.query,
            final(op)@.invalidates == old(op)@.invalidates,
            // A finished operation stays finished and does nothing.
            old(op)@.stage == Stage::Done ==> r is Idle && final(op)@ == old(op)@
                && final(self).cached() == old(self).cached() && final(self).bucket()
                == old(self).bucket(),
            // The cache is consulted first; a hit ends the read without a permit.
            old(op)@.stage == Stage::Lookup && r is Cached ==> lookup_allows(
                old(self).cached(),
                old(op)@.query.unwrap(),
                Some(r->Cached_0@),
            ) && final(op)@.stage == Stage::Done && final(self).bucket() == old(self).bucket(),
            old(op)@.stage == Stage::Lookup && !old(self).caching() ==> !(r is Cached),
            // Admission: a permit starts attempt 1, else the wait is given.
            (old(op)@.stage == Stage::Admit || (old(op)@.stage == Stage::Lookup && !(r is Cached)))
                ==> {
                &&& final(self).bucket() == attempt(old(self).bucket(), now as nat).0
                &&& final(self).cached() == old(self).cached()
                &&& attempt(old(self).bucket(), now as nat).1 ==> r == Action::Send(1)
                    && final(op)@.stage == Stage::Attempting && final(op)@.attempt == 1
                &&& !attempt(old(self).bucket(), now as nat).1 ==> r == Action::Wait(wait_for(
                    old(self).bucket(),
                    now as nat,
                ) as u64) && final(op)@.stage == Stage::Admit
            },
            // After a backoff the next attempt is sent.
            old(op)@.stage == Stage::BackingOff ==> final(op)@.stage == Stage::Attempting
                && final(op)@.attempt == (if old(op)@.attempt < u32::MAX {
                (old(op)@.attempt + 1) as u32
            } else {
                old(op)@.attempt
            }) && r == Action::Send(final(op)@.attempt) && final(self).cached() == old(self).cached()
                && final(self).bucket() == old(self).bucket(),
            // An attempt's outcome.
            old(op)@.stage == Stage::Attempting ==> final(self).bucket() == old(self).bucket() && match event {
                Event::Resume => r == Action::Send(old(op)@.attempt) && final(op)@ == old(op)@
                    && final(self).cached() == old(self).cached(),
                Event::Outcome(Ok(body)) => r is Completed && final(op)@.stage == Stage::Done
                    && final(self).cached() == match old(op)@.query {
                    Some(q) => if old(self).caching() {
                        old(self).cached().insert(q, body@)
                    } else {
                        old(self).cached()
                    },
                    None => if old(op)@.invalidates {
                        crate::cache::no_entries()
                    } else {
                        old(self).cached()
                    },
                },
                Event::Outcome(Err(e)) => final(self).cached() == old(self).cached() && match step_after(
                    old(self).spec_config().retry_config,
                    old(op)@.attempt,
                    e,
                    elapsed,
                ) {
                    RetryStep::Retry { delay } => r == Action::Backoff(delay) && final(op)@.stage
                        == Stage::BackingOff && final(op)@.attempt == old(op)@.attempt,
                    RetryStep::GiveUp => r == Action::Failed(e) && final(op)@.stage == Stage::Done,
                },
            },
    {
        match op.stage {
            Stage::Done => Action::Idle,
            Stage::Lookup => {
                let hit = match &op.query {
                    Some(q) => self.cached_query(q.as_str()),
                    None => None,
                };
                match hit {
                    Some(body) => {
                        op.stage = Stage::Done;
                        Action::Cached(body)
                    },
                    None => self.admission(op, now),
                }
            },
            Stage::Admit => self.admission(op, now),
            Stage::BackingOff => {
                if op.attempt < u32::MAX {
                    op.attempt = op.attempt + 1;
                }
                op.stage = Stage::Attempting;
                Action::Send(op.attempt)
            },
            Stage::Attempting => match event {
                Event::Resume => Action::Send(op.attempt),
                Event::Outcome(Ok(body)) => {
                    match &op.query {
                        Some(q) => self.store_query(q.as_str(), body),
                        None => if op.invalidates {
                            self.after_write()
                        },
                    }
                    op.stage = Stage::Done;
                    Action::Completed
                },
                Event::Outcome(Err(e)) => match self.retry_step(op.attempt, &e, elapsed) {
                    RetryStep::Retry { delay } => {
                        op.stage = Stage::BackingOff;
                        Action::Backoff(delay)
                    },
                    RetryStep::GiveUp => {
                        op.stage = Stage::Done;
                        Action::Failed(e)
                    },
                },
            },
        }
    }
}

} // verus!
