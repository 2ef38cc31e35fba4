//! Model of the HTTP client wrapper's contract and of the remote API surface.
//!
//! The requests themselves are issued by the unverified shell around this
//! crate; this module fixes the client configuration constants, classifies
//! response status codes, and builds the exact URLs of the two endpoints.
use vstd::prelude::*;

use crate::decimal::decimal_chars;
use crate::decimal::u64_decimal;
use crate::error::protocol_message;
use crate::error::BugcrawlError;

verus! {

/// "user-agent" header value for crawl requests.
pub const BUGCRAWL_USER_AGENT: &'static str = "bugcrawl";

/// Maximum time in milliseconds for any HTTP request to bugview.
pub const BUGVIEW_REQUEST_TIMEOUT: u64 = 30000;

/// Maximum time in milliseconds for connect attempts to bugview.
pub const BUGVIEW_CONNECT_TIMEOUT: u64 = 30000;

/// Minimum time in milliseconds between "list" requests to bugview.
pub const BUGVIEW_DELAY_LIST: u64 = 500;

/// Minimum time in milliseconds between "get issue" requests to bugview.
pub const BUGVIEW_DELAY_GET_ISSUE: u64 = 1500;

/// A response status counts as success exactly when it lies in 200..300.
pub open spec fn is_success_status(status: int) -> bool {
    200 <= status < 300
}

/// Classify a response status code: any non-success status fails the crawl
/// with a protocol error carrying the code.
pub fn check_status(status: u16) -> (r: Result<(), BugcrawlError>)
    ensures
        r is Ok <==> is_success_status(status as int),
        r matches Err(e) ==> e.message@ == protocol_message(status as nat),
{
    if 200 <= status && status < 300 {
        Ok(())
    } else {
        Err(BugcrawlError::protocol(status))
    }
}

/// The URL of the listing endpoint for one page, with the sort field and the
/// page offset as query parameters.
pub open spec fn listing_url_spec(sort: Seq<char>, offset: nat) -> Seq<char> {
    "https://smartos.org/bugview/index.json?sort="@ + sort + "&offset="@ + decimal_chars(offset)
}

/// The URL of the full-JSON endpoint for one issue.
pub open spec fn issue_url_spec(id: Seq<char>) -> Seq<char> {
    "https://smartos.org/bugview/fulljson/"@ + id
}

/// Build the listing-page URL for the given sort field and offset.
pub fn listing_url(sort: &str, offset: usize) -> (u: String)
    ensures
        u@ == listing_url_spec(sort@, offset as nat),
{
    let mut u = String::from_str("https://smartos.org/bugview/index.json?sort=");
    u.append(sort);
    u.append("&offset=");
    u.append(u64_decimal(offset as u64).as_str());
    u
}

/// Build the full-JSON URL for the given issue identifier.
pub fn issue_url(issue_id: &str) -> (u: String)
    ensures
        u@ == issue_url_spec(issue_id@),
{
    let mut u = String::from_str("https://smartos.org/bugview/fulljson/");
    u.append(issue_id);
    u
}

} // verus!
