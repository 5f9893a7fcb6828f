//! Single-record writes: the requests for insert, update, delete and upsert,
//! and how their responses are read.
use crate::error::{SfError, SfResult};
use crate::http::{
    bearer_header, bearer_text, json_content_header, pair_views, success_status, HttpMethod,
    HttpRequest,
};
use crate::text::{join, join_with, views};
use vstd::prelude::*;

verus! {

/// Response of an insert or upsert.
#[derive(Debug, Clone)]
pub struct InsertResponse {
    /// The ID of the record.
    pub id: String,
    /// Whether the operation succeeded.
    pub success: bool,
    /// What went wrong, if anything.
    pub errors: Vec<SalesforceError>,
}

/// Response of an update or delete.
#[derive(Debug, Clone)]
pub struct UpdateResponse {
    /// Whether the operation succeeded.
    pub success: bool,
    /// What went wrong, if anything.
    pub errors: Vec<SalesforceError>,
}

/// One error reported by the service for a record.
#[derive(Debug, Clone)]
pub struct SalesforceError {
    /// Error status code.
    pub status_code: String,
    /// Error message.
    pub message: String,
    /// Fields that caused the error.
    pub fields: Vec<String>,
}

#[verifier::external_type_specification]
#[verifier::external_body]
pub struct ExJsonValue(serde_json::Value);

/// Response of a batch of operations.
#[derive(Debug)]
pub struct BatchResponse {
    /// Whether any operation of the batch failed.
    pub has_errors: bool,
    /// The result of each operation, in order.
    pub results: Vec<BatchResult>,
}

/// Result of one operation of a batch.
#[derive(Debug)]
pub struct BatchResult {
    /// Status code of the operation.
    pub status_code: u16,
    /// Its result (the ID of an insert), as the service sent it.
    pub result: Option<serde_json::Value>,
}

/// Addresses a record by an external ID field for an upsert.
#[derive(Debug)]
pub struct UpsertBuilder {
    /// Name of the external ID field.
    pub external_id_field: String,
    /// Value of the external ID.
    pub external_id_value: String,
}

impl Clone for UpsertBuilder {
    fn clone(&self) -> (r: Self)
        ensures
            r.external_id_field@ == self.external_id_field@,
            r.external_id_value@ == self.external_id_value@,
    {
        UpsertBuilder {
            external_id_field: self.external_id_field.clone(),
            external_id_value: self.external_id_value.clone(),
        }
    }
}

impl UpsertBuilder {
    /// Addresses the record whose field `external_id_field` holds `external_id_value`.
    pub fn new(external_id_field: &str, external_id_value: &str) -> (r: Self)
        ensures
            r.external_id_field@ == external_id_field@,
            r.external_id_value@ == external_id_value@,
    {
        UpsertBuilder {
            external_id_field: external_id_field.to_owned(),
            external_id_value: external_id_value.to_owned(),
        }
    }
}

/// `code: message` of one reported error.
pub open spec fn error_line(e: SalesforceError) -> Seq<char> {
    e.status_code@ + ": "@ + e.message@
}

/// The reported errors, one `code: message` each, separated by `, `.
pub open spec fn error_summary(errors: Seq<SalesforceError>) -> Seq<char> {
    join(errors.map_values(|e: SalesforceError| error_line(e)), ", "@)
}

pub open spec fn sobject_url_text(base: Seq<char>, sobject: Seq<char>) -> Seq<char> {
    base + "/services/data/v57.0/sobjects/"@ + sobject
}

pub open spec fn record_url_text(base: Seq<char>, sobject: Seq<char>, id: Seq<char>) -> Seq<char> {
    sobject_url_text(base, sobject) + "/"@ + id
}

/// Builds requests for single-record writes against one instance.
pub struct CrudOperations {
    base_url: String,
    access_token: String,
}

impl CrudOperations {
    /// Writes against `base_url`, authenticated with `access_token`.
    pub fn new(base_url: String, access_token: String) -> (r: Self)
        ensures
            r.base_url() == base_url@,
            r.access_token() == access_token@,
    {
        CrudOperations { base_url, access_token }
    }

    pub closed spec fn base_url(&self) -> Seq<char> {
        self.base_url@
    }

    pub closed spec fn access_token(&self) -> Seq<char> {
        self.access_token@
    }

    fn sobject_url(&self, sobject: &str) -> (r: String)
        ensures
            r@ == sobject_url_text(self.base_url(), sobject@),
    {
        let mut url = self.base_url.clone();
        url.append("/services/data/v57.0/sobjects/");
        url.append(sobject);
        url
    }

    fn record_url(&self, sobject: &str, id: &str) -> (r: String)
        ensures
            r@ == record_url_text(self.base_url(), sobject@, id@),
    {
        let mut url = self.sobject_url(sobject);
        url.append("/");
        url.append(id);
        url
    }

    fn json_headers(&self) -> (r: Vec<(String, String)>)
        ensures
            pair_views(r@) == seq![
                ("Authorization"@, bearer_text(self.access_token())),
                ("Content-Type"@, "application/json"@),
            ],
    {
        let mut headers: Vec<(String, String)> = Vec::new();
        headers.push(bearer_header(self.access_token.as_str()));
        headers.push(json_content_header());
        proof {
            assert(pair_views(headers@) =~= seq![
                ("Authorization"@, bearer_text(self.access_token())),
                ("Content-Type"@, "application/json"@),
            ]);
        }
        headers
    }

    /// The request that creates a record of `sobject`; the record goes as
    /// the JSON body.
    pub fn insert_request(&self, sobject: &str) -> (r: HttpRequest)
        ensures
            r.method == HttpMethod::Post,
            r.url@ == sobject_url_text(self.base_url(), sobject@),
            pair_views(r.headers@) == seq![
                ("Authorization"@, bearer_text(self.access_token())),
                ("Content-Type"@, "application/json"@),
            ],
            r.query@.len() == 0,
            r.form@.len() == 0,
    {
        HttpRequest {
            method: HttpMethod::Post,
            url: self.sobject_url(sobject),
            headers: self.json_headers(),
            query: Vec::new(),
            form: Vec::new(),
        }
    }

    /// The request that changes the fields of record `id`; the fields go
    /// as the JSON body.
    pub fn update_request(&self, sobject: &str, id: &str) -> (r: HttpRequest)
        ensures
            r.method == HttpMethod::Patch,
            r.url@ == record_url_text(self.base_url(), sobject@, id@),
            pair_views(r.headers@) == seq![
                ("Authorization"@, bearer_text(self.access_token())),
                ("Content-Type"@, "application/json"@),
            ],
            r.query@.len() == 0,
            r.form@.len() == 0,
    {
        HttpRequest {
            method: HttpMethod::Patch,
            url: self.record_url(sobject, id),
            headers: self.json_headers(),
            query: Vec::new(),
            form: Vec::new(),
        }
    }

    /// The request that deletes record `id`.
    pub fn delete_request(&self, sobject: &str, id: &str) -> (r: HttpRequest)
        ensures
            r.method == HttpMethod::Delete,
            r.url@ == record_url_text(self.base_url(), sobject@, id@),
            pair_views(r.headers@) == seq![("Authorization"@, bearer_text(self.access_token()))],
            r.query@.len() == 0,
            r.form@.len() == 0,
    {
        let mut headers: Vec<(String, String)> = Vec::new();
        headers.push(bearer_header(self.access_token.as_str()));
        proof {
            assert(pair_views(headers@) =~= seq![
                ("Authorization"@, bearer_text(self.access_token())),
            ]);
        }
        HttpRequest {
            method: HttpMethod::Delete,
            url: self.record_url(sobject, id),
            headers,
            query: Vec::new(),
            form: Vec::new(),
        }
    }

    /// The request that creates or updates the record addressed by
    /// `builder`; the record goes as the JSON body.
    pub fn upsert_request(&self, sobject: &str, builder: &UpsertBuilder) -> (r: HttpRequest)
        ensures
            r.method == HttpMethod::Patch,
            r.url@ == record_url_text(self.base_url(), sobject@, builder.external_id_field@) + "/"@
                + builder.external_id_value@,
            pair_views(r.headers@) == seq![
                ("Authorization"@, bearer_text(self.access_token())),
                ("Content-Type"@, "application/json"@),
            ],
            r.query@.len() == 0,
            r.form@.len() == 0,
    {
        let mut url = self.record_url(sobject, builder.external_id_field.as_str());
        url.append("/");
        url.append(builder.external_id_value.as_str());
        HttpRequest {
            method: HttpMethod::Patch,
            url,
            headers: self.json_headers(),
            query: Vec::new(),
            form: Vec::new(),
        }
    }

    /// Reads the status of an update or delete of record `id`: `NotFound`
    /// for 404, `Api` with the body for any other failure, else `Ok`.
    pub fn check_record_status(status: u16, sobject: &str, id: &str, body: String) -> (r: SfResult<
        (),
    >)
        ensures
            r is Ok <==> success_status(status),
            status == 404 ==> crate::http::not_found_error(r, sobject@, id@),
            status != 404 && !success_status(status) ==> crate::http::api_error(r, status, body@),
    {
        if status == 404 {
            return Err(SfError::NotFound { sobject: sobject.to_owned(), id: id.to_owned() });
        }
        crate::http::check_status(status, body)
    }

    /// Reads a decoded insert response: kept when it reports success, else
    /// an `Api` error with status 400 listing the reported errors.
    pub fn check_insert(response: InsertResponse) -> (r: SfResult<InsertResponse>)
        ensures
            r is Ok <==> response.success,
            response.success ==> r == Ok::<InsertResponse, SfError>(response),
            !response.success ==> crate::http::api_error(
                r,
                400,
                error_summary(response.errors@),
            ),
    {
        if response.success {
            return Ok(response);
        }
        let summary = summarize_errors(&response.errors);
        Err(SfError::Api { status: 400, body: summary })
    }
}

fn summarize_errors(errors: &Vec<SalesforceError>) -> (r: String)
    ensures
        r@ == error_summary(errors@),
{
    let mut lines: Vec<String> = Vec::new();
    let mut i: usize = 0;
    while i < errors.len()
        invariant
            i <= errors@.len(),
            views(lines@) == errors@.take(i as int).map_values(|e: SalesforceError| error_line(e)),
        decreases errors@.len() - i,
    {
        let ghost before = lines@;
        let mut line = errors[i].status_code.clone();
        line.append(": ");
        line.append(errors[i].message.as_str());
        assert(line@ == error_line(errors@[i as int]));
        lines.push(line);
        i = i + 1;
        assert(errors@.take(i as int) =~= errors@.take(i - 1).push(errors@[i - 1]));
        assert(views(lines@) =~= views(before).push(line@));
        assert(errors@.take(i as int).map_values(|e: SalesforceError| error_line(e))
            =~= errors@.take(i - 1).map_values(|e: SalesforceError| error_line(e)).push(
            error_line(errors@[i - 1]),
        ));
    }
    assert(errors@.take(errors@.len() as int) =~= errors@);
    join_with(&lines, ", ")
}

} // verus!
