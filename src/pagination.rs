//! Cursor over a result set that the service hands out in pages. The cursor
//! decides which page to ask for next and when the stream has ended; the
//! transport fetches, and each page fetched is handed back to the cursor.
use crate::http::{bearer_header, bearer_text, pair_views, HttpMethod, HttpRequest};
use crate::query_builder::opt_view;
use std::marker::PhantomData;
use vstd::prelude::*;
use vstd::string::*;

verus! {

/// Largest number of records the service returns in one page.
pub const MAX_BATCH_SIZE: usize = 2000;

/// One page of a query result.
#[derive(Debug)]
pub struct QueryResponse<T> {
    /// The records of this page, in order.
    pub records: Vec<T>,
    /// Whether this is the last page.
    pub done: bool,
    /// Total number of records of the query, when reported.
    pub total_size: Option<i32>,
    /// Locator of the next page, absolute or relative to the endpoint root.
    pub next_records_url: Option<String>,
}

impl<T> QueryResponse<T> {
    /// Whether another page follows this one.
    pub fn has_more(&self) -> (r: bool)
        ensures
            r == (!self.done && self.next_records_url is Some),
    {
        !self.done && self.next_records_url.is_some()
    }
}

/// The state of a cursor, as text.
pub struct CursorState {
    pub base_url: Seq<char>,
    pub access_token: Seq<char>,
    pub next_url: Option<Seq<char>>,
    pub finished: bool,
}

/// Whether a locator is an absolute address.
pub open spec fn is_absolute(path: Seq<char>) -> bool {
    path.len() >= 4 && path[0] == 'h' && path[1] == 't' && path[2] == 't' && path[3] == 'p'
}

/// The address a locator stands for: itself when absolute, else appended to the root.
pub open spec fn resolve(base: Seq<char>, path: Seq<char>) -> Seq<char> {
    if is_absolute(path) {
        path
    } else {
        base + path
    }
}

/// Asking a cursor for its next page: the new state, and the address to
/// fetch or nothing when the stream has ended. An ended cursor is left as it is.
pub open spec fn cursor_next(c: CursorState) -> (CursorState, Option<Seq<char>>) {
    if c.finished {
        (c, None)
    } else {
        match c.next_url {
            None => (CursorState { finished: true, ..c }, None),
            Some(p) => (c, Some(resolve(c.base_url, p))),
        }
    }
}

/// Handing a fetched page to a cursor: a last page ends the stream, any
/// other page's locator becomes the next one.
pub open spec fn cursor_accept(c: CursorState, done: bool, next: Option<Seq<char>>) -> CursorState {
    if done {
        CursorState { finished: true, next_url: None, ..c }
    } else {
        CursorState { next_url: next, ..c }
    }
}

/// `n` successive requests for the next page: the final state and how many
/// fetches were asked for.
pub open spec fn cursor_repeat(c: CursorState, n: nat) -> (CursorState, nat)
    decreases n,
{
    if n == 0 {
        (c, 0)
    } else {
        let (c1, k) = cursor_repeat(c, (n - 1) as nat);
        let (c2, r) = cursor_next(c1);
        (c2, if r is Some {
            k + 1
        } else {
            k
        })
    }
}

/// Cursor over the pages of a query result with records of type `T`.
pub struct PaginatedQuery<T> {
    base_url: String,
    access_token: String,
    next_url: Option<String>,
    finished: bool,
    _phantom: PhantomData<T>,
}

impl<T> View for PaginatedQuery<T> {
    type V = CursorState;

    closed spec fn view(&self) -> CursorState {
        CursorState {
            base_url: self.base_url@,
            access_token: self.access_token@,
            next_url: opt_view(self.next_url),
            finished: self.finished,
        }
    }
}

fn absolute(path: &str) -> (r: bool)
    ensures
        r == is_absolute(path@),
{
    path.unicode_len() >= 4 && path.get_char(0) == 'h' && path.get_char(1) == 't' && path.get_char(
        2,
    ) == 't' && path.get_char(3) == 'p'
}

impl<T> PaginatedQuery<T> {
    /// A cursor at `initial_url`; without one the stream has already ended.
    pub fn new(base_url: String, access_token: String, initial_url: Option<String>) -> (r: Self)
        ensures
            r@ == (CursorState {
                base_url: base_url@,
                access_token: access_token@,
                next_url: opt_view(initial_url),
                finished: initial_url is None,
            }),
    {
        let finished = initial_url.is_none();
        PaginatedQuery { base_url, access_token, next_url: initial_url, finished, _phantom: PhantomData }
    }

    /// Whether the stream has ended.
    pub fn is_finished(&self) -> (r: bool)
        ensures
            r == self@.finished,
    {
        self.finished
    }

    /// The request for the next page, or nothing once the stream has ended,
    /// in which case nothing is to be sent. The request is an authenticated
    /// GET of the resolved locator.
    pub fn next_request(&mut self) -> (r: Option<HttpRequest>)
        ensures
            final(self)@ == cursor_next(old(self)@).0,
            r is Some <==> cursor_next(old(self)@).1 is Some,
            r is Some ==> {
                let q = r.unwrap();
                &&& q.method == HttpMethod::Get
                &&& q.url@ == cursor_next(old(self)@).1.unwrap()
                &&& pair_views(q.headers@) == seq![
                    ("Authorization"@, bearer_text(old(self)@.access_token)),
                ]
                &&& q.query@.len() == 0
                &&& q.form@.len() == 0
            },
    {
        if self.finished {
            return None;
        }
        let url = match &self.next_url {
            Some(path) => {
                if absolute(path.as_str()) {
                    path.clone()
                } else {
                    let mut u = self.base_url.clone();
                    u.append(path.as_str());
                    u
                }
            },
            None => {
                self.finished = true;
                return None;
            },
        };
        let mut headers: Vec<(String, String)> = Vec::new();
        headers.push(bearer_header(self.access_token.as_str()));
        proof {
            assert(pair_views(headers@) =~= seq![
                ("Authorization"@, bearer_text(self@.access_token)),
            ]);
        }
        Some(HttpRequest { method: HttpMethod::Get, url, headers, query: Vec::new(), form: Vec::new() })
    }

    /// Takes in a fetched page and hands back its records, in order.
    pub fn accept_page(&mut self, page: QueryResponse<T>) -> (r: Vec<T>)
        ensures
            final(self)@ == cursor_accept(old(self)@, page.done, opt_view(page.next_records_url)),
            r@ == page.records@,
    {
        if page.done {
            self.finished = true;
            self.next_url = None;
        } else {
            self.next_url = page.next_records_url;
        }
        page.records
    }
}

/// Once the stream has ended, asking for the next page any number of times
/// asks for no fetch and leaves the cursor as it is.
pub proof fn lemma_finished_cursor_is_idle(c: CursorState, n: nat)
    requires
        c.finished,
    ensures
        cursor_repeat(c, n) == (c, 0nat),
    decreases n,
{
    if n > 0 {
        lemma_finished_cursor_is_idle(c, (n - 1) as nat);
    }
}

/// A page marked as the last one ends the stream: the next request asks
/// for no fetch, whatever locator the page carried.
pub proof fn lemma_last_page_ends_stream(c: CursorState, next: Option<Seq<char>>)
    ensures
        cursor_accept(c, true, next).finished,
        cursor_next(cursor_accept(c, true, next)).1 is None,
{
}

/// A page that is not the last and carries a locator leads to a fetch of
/// that locator, resolved against the root.
pub proof fn lemma_locator_is_followed(c: CursorState, next: Seq<char>)
    requires
        !c.finished,
    ensures
        cursor_next(cursor_accept(c, false, Some(next))).1 == Some(resolve(c.base_url, next)),
{
}

/// Options of a query: a cap on the records fetched, the page size, and
/// whether later pages are fetched at all.
#[derive(Debug, Clone)]
pub struct QueryOptions {
    /// Largest number of records to fetch; `None` fetches all.
    pub limit: Option<usize>,
    /// Records per request, at most `MAX_BATCH_SIZE`.
    pub batch_size: usize,
    /// Whether pages after the first are fetched.
    pub auto_paginate: bool,
}

impl Default for QueryOptions {
    fn default() -> (r: Self)
        ensures
            r.limit is None,
            r.batch_size == MAX_BATCH_SIZE,
            r.auto_paginate,
    {
        QueryOptions { limit: None, batch_size: MAX_BATCH_SIZE, auto_paginate: true }
    }
}

impl QueryOptions {
    /// No cap, full pages, pagination on.
    pub fn new() -> (r: Self)
        ensures
            r.limit is None,
            r.batch_size == MAX_BATCH_SIZE,
            r.auto_paginate,
    {
        Self::default()
    }

    /// Caps the number of records fetched.
    pub fn limit(self, limit: usize) -> (r: Self)
        ensures
            r.limit == Some(limit),
            r.batch_size == self.batch_size,
            r.auto_paginate == self.auto_paginate,
    {
        QueryOptions { limit: Some(limit), ..self }
    }

    /// Sets the page size, clamped to `MAX_BATCH_SIZE`.
    pub fn batch_size(self, size: usize) -> (r: Self)
        ensures
            r.limit == self.limit,
            r.batch_size == (if size <= MAX_BATCH_SIZE {
                size
            } else {
                MAX_BATCH_SIZE
            }),
            r.auto_paginate == self.auto_paginate,
    {
        let clamped = if size <= MAX_BATCH_SIZE {
            size
        } else {
            MAX_BATCH_SIZE
        };
        QueryOptions { batch_size: clamped, ..self }
    }

    /// Fetches the first page only.
    pub fn no_pagination(self) -> (r: Self)
        ensures
            r.limit == self.limit,
            r.batch_size == self.batch_size,
            !r.auto_paginate,
    {
        QueryOptions { auto_paginate: false, ..self }
    }
}

} // verus!
