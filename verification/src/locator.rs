//! Locating a pollable operation handle in the headers of a submission
//! response: prefer `azure-asyncoperation` over `location`, parse the chosen
//! value as a URL, take the final path segment as the operation id, and read
//! the poll cadence from `retry-after`.

use vstd::prelude::*;

use crate::error::AppError;
use crate::headers::{first_match, Header, Headers};
use crate::text::{all_digits, dec_value, final_segment, last_path_segment, parse_u64};

verus! {

/// Seconds waited before the first poll when the response names no cadence,
/// or one that does not read as a number.
pub const DEFAULT_RETRY_SECS: u64 = 60;

/// A located long-running operation: the id polled under, the URL the handle
/// came from, and the advisory wait before the first poll.
#[derive(Debug)]
pub struct OperationHandle {
    pub id: String,
    pub poll_url: String,
    pub retry_after_secs: u64,
}

/// The header value a handle is located from: `azure-asyncoperation` when
/// present, else `location`, else nothing.
pub open spec fn handle_header_value(entries: Seq<Header>) -> Option<Seq<char>> {
    match first_match(entries, "azure-asyncoperation"@) {
        Some(v) => Some(v),
        None => first_match(entries, "location"@),
    }
}

/// The poll cadence in seconds that a header listing dictates: a `retry-after`
/// entry that reads as a number, else the fixed fallback.
pub open spec fn retry_after_of(entries: Seq<Header>) -> int {
    match first_match(entries, "retry-after"@) {
        Some(v) => if v.len() > 0 && all_digits(v) && dec_value(v) <= u64::MAX {
            dec_value(v)
        } else {
            DEFAULT_RETRY_SECS as int
        },
        None => DEFAULT_RETRY_SECS as int,
    }
}

/// The path of the URL that `s` denotes, if `s` is a well-formed URL.
pub uninterp spec fn parsed_url_path(s: Seq<char>) -> Option<Seq<char>>;

/// Relies on `url::Url::parse`, which accepts exactly the well-formed
/// absolute URLs, and `url::Url::path`, which hands back the parsed URL's
/// percent-encoded path; both depend on the characters of `s` alone.
#[verifier::external_body]
fn url_path_of(s: &str) -> (r: Result<String, url::ParseError>)
    ensures
        r is Ok <==> parsed_url_path(s@) is Some,
        r matches Ok(p) ==> parsed_url_path(s@) == Some(p@),
{
    match url::Url::parse(s) {
        Ok(u) => Ok(u.path().to_string()),
        Err(e) => Err(e),
    }
}

/// For every header listing that carries `azure-asyncoperation`, the handle
/// is located from that entry, never from `location`, also when both stand in
/// the listing.
pub proof fn lemma_async_operation_preferred(entries: Seq<Header>)
    requires
        first_match(entries, "azure-asyncoperation"@) is Some,
    ensures
        handle_header_value(entries) == first_match(entries, "azure-asyncoperation"@),
{
}

/// For every header listing that carries neither `azure-asyncoperation` nor
/// `location`, no handle value is located, so [`locate`] fails with
/// [`AppError::MissingOperationHandle`].
pub proof fn lemma_no_handle_without_headers(entries: Seq<Header>)
    requires
        first_match(entries, "azure-asyncoperation"@) is None,
        first_match(entries, "location"@) is None,
    ensures
        handle_header_value(entries) is None,
{
}

/// Reads the poll cadence a response dictates.
pub fn retry_after(headers: &Headers) -> (r: u64)
    ensures
        r == retry_after_of(headers@),
{
    match headers.get("retry-after") {
        Some(v) => match parse_u64(v.as_str()) {
            Some(n) => n,
            None => DEFAULT_RETRY_SECS,
        },
        None => DEFAULT_RETRY_SECS,
    }
}

/// What a successfully located handle holds: the header listing carries a
/// handle header whose value is a well-formed URL, the handle keeps that
/// value, its id is the URL path's final segment, which is not empty, and its
/// cadence is the one the listing dictates.
pub open spec fn located_handle(entries: Seq<Header>, h: OperationHandle) -> bool {
    match handle_header_value(entries) {
        Some(u) => match parsed_url_path(u) {
            Some(p) => final_segment(p).len() > 0 && h.id@ == final_segment(p) && h.poll_url@ == u
                && h.retry_after_secs == retry_after_of(entries),
            None => false,
        },
        None => false,
    }
}

/// Which error locating fails with: `MissingOperationHandle` exactly when no
/// handle header stands in the listing, `MalformedOperationHandle` exactly
/// when the chosen value is no well-formed URL, and `InvalidOperationHandle`
/// exactly when the URL path's final segment is empty.
pub open spec fn locate_failure(entries: Seq<Header>, e: AppError) -> bool {
    match handle_header_value(entries) {
        None => e is MissingOperationHandle,
        Some(u) => match parsed_url_path(u) {
            None => e is MalformedOperationHandle,
            Some(p) => final_segment(p).len() == 0 && e is InvalidOperationHandle,
        },
    }
}

/// Locates the operation handle that `headers` describe.  The two spec
/// functions above pin the outcome on every input: locating succeeds if and
/// only if a handle header is present, its value parses as a URL and the
/// URL's final path segment is non-empty.
pub fn locate(headers: &Headers) -> (r: Result<OperationHandle, AppError>)
    ensures
        r matches Ok(h) ==> located_handle(headers@, h),
        r matches Err(e) ==> locate_failure(headers@, e),
{
    let chosen = match headers.get("azure-asyncoperation") {
        Some(v) => Some(v),
        None => headers.get("location"),
    };
    match chosen {
        None => Err(AppError::MissingOperationHandle),
        Some(u) => match url_path_of(u.as_str()) {
            Err(e) => Err(AppError::MalformedOperationHandle(e)),
            Ok(p) => {
                let id = last_path_segment(p.as_str());
                if id.as_str().is_empty() {
                    Err(AppError::InvalidOperationHandle)
                } else {
                    let retry_after_secs = retry_after(headers);
                    Ok(OperationHandle { id, poll_url: u.clone(), retry_after_secs })
                }
            },
        },
    }
}

} // verus!
