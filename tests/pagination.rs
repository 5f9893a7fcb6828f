use salesforce_client::http::HttpMethod;
use salesforce_client::pagination::{PaginatedQuery, QueryOptions, QueryResponse};

#[test]
fn test_query_options_builder() {
    let opts = QueryOptions::new().limit(1000).batch_size(500);

    assert_eq!(opts.limit, Some(1000));
    assert_eq!(opts.batch_size, 500);
    assert!(opts.auto_paginate);
}

#[test]
fn test_query_options_max_batch_size() {
    let opts = QueryOptions::new().batch_size(5000);

    // Clamped to the page maximum.
    assert_eq!(opts.batch_size, 2000);
}

#[test]
fn query_options_without_pagination() {
    let opts = QueryOptions::new().no_pagination();
    assert!(!opts.auto_paginate);
    assert_eq!(opts.limit, None);
    assert_eq!(opts.batch_size, 2000);
}

/// A transport stand-in that serves a fixed stream of pages and counts requests.
struct PageServer {
    calls: usize,
}

impl PageServer {
    fn fetch(&mut self, url: &str) -> QueryResponse<u32> {
        self.calls += 1;
        let (start, len, next): (u32, u32, Option<&str>) = match url {
            "https://example.my.salesforce.com/services/data/v57.0/query/01g-0" => {
                (0, 2000, Some("/services/data/v57.0/query/01g-2000"))
            }
            "https://example.my.salesforce.com/services/data/v57.0/query/01g-2000" => {
                (2000, 2000, Some("/services/data/v57.0/query/01g-4000"))
            }
            "https://example.my.salesforce.com/services/data/v57.0/query/01g-4000" => {
                (4000, 137, None)
            }
            other => panic!("unexpected page {}", other),
        };
        QueryResponse {
            records: (start..start + len).collect(),
            done: next.is_none(),
            total_size: Some(4137),
            next_records_url: next.map(|s| s.to_string()),
        }
    }
}

fn three_page_cursor() -> PaginatedQuery<u32> {
    PaginatedQuery::new(
        "https://example.my.salesforce.com".to_string(),
        "tok".to_string(),
        Some("/services/data/v57.0/query/01g-0".to_string()),
    )
}

#[test]
fn three_pages_drained_in_order() {
    let mut cursor = three_page_cursor();
    let mut server = PageServer { calls: 0 };
    let mut all: Vec<u32> = Vec::new();
    let mut sizes: Vec<usize> = Vec::new();
    while let Some(request) = cursor.next_request() {
        assert_eq!(request.method, HttpMethod::Get);
        assert_eq!(
            request.headers,
            vec![("Authorization".to_string(), "Bearer tok".to_string())]
        );
        let page = server.fetch(&request.url);
        let records = cursor.accept_page(page);
        sizes.push(records.len());
        all.extend(records);
    }
    assert_eq!(server.calls, 3);
    assert_eq!(sizes, vec![2000, 2000, 137]);
    assert_eq!(all.len(), 4137);
    assert!(all.iter().enumerate().all(|(i, v)| *v as usize == i));
    // A fourth request is refused without a fetch.
    assert!(cursor.next_request().is_none());
    assert_eq!(server.calls, 3);
}

#[test]
fn finished_cursor_stays_idle() {
    let mut cursor = three_page_cursor();
    let mut server = PageServer { calls: 0 };
    while let Some(request) = cursor.next_request() {
        let page = server.fetch(&request.url);
        cursor.accept_page(page);
    }
    assert!(cursor.is_finished());
    for _ in 0..100 {
        assert!(cursor.next_request().is_none());
    }
    assert_eq!(server.calls, 3);
}

#[test]
fn cursor_without_locator_is_finished() {
    let mut cursor: PaginatedQuery<u32> =
        PaginatedQuery::new("https://x".to_string(), "t".to_string(), None);
    assert!(cursor.is_finished());
    assert!(cursor.next_request().is_none());
}

#[test]
fn absolute_locator_is_used_as_is() {
    let mut cursor: PaginatedQuery<u32> = PaginatedQuery::new(
        "https://x".to_string(),
        "t".to_string(),
        Some("https://other.example/next".to_string()),
    );
    let request = cursor.next_request().unwrap();
    assert_eq!(request.url, "https://other.example/next");
}

#[test]
fn done_page_ends_stream_even_with_locator() {
    let mut cursor: PaginatedQuery<u32> = PaginatedQuery::new(
        "https://x".to_string(),
        "t".to_string(),
        Some("/page-a".to_string()),
    );
    let request = cursor.next_request().unwrap();
    assert_eq!(request.url, "https://x/page-a");
    let records = cursor.accept_page(QueryResponse {
        records: vec![1, 2],
        done: true,
        total_size: None,
        next_records_url: Some("/page-b".to_string()),
    });
    assert_eq!(records, vec![1, 2]);
    assert!(cursor.next_request().is_none());
}

#[test]
fn has_more_needs_locator_and_not_done() {
    let page = |done: bool, next: Option<&str>| QueryResponse::<u8> {
        records: vec![],
        done,
        total_size: None,
        next_records_url: next.map(|s| s.to_string()),
    };
    assert!(page(false, Some("/n")).has_more());
    assert!(!page(true, Some("/n")).has_more());
    assert!(!page(false, None).has_more());
}
