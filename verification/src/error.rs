//! Error handling facilities.
//!
//! Every failure of the crawl is surfaced as a [`BugcrawlError`] carrying a
//! human-readable message; nothing is retried or recovered locally.
use vstd::prelude::*;

use crate::decimal::decimal_chars;
use crate::decimal::u64_decimal;

verus! {

/// BugcrawlError wraps any error we might encounter as part of the crawl.
#[derive(Debug)]
pub struct BugcrawlError {
    pub message: String,
}

/// The message reported for a non-success HTTP status code.
pub open spec fn protocol_message(status: nat) -> Seq<char> {
    "unexpected response code: "@ + decimal_chars(status)
}

/// The message reported when an issue body exceeds the size cap.
pub open spec fn oversize_message(id: Seq<char>, size: nat, limit: nat) -> Seq<char> {
    "issue "@ + id + " was too big ("@ + decimal_chars(size) + " bytes, max is "@
        + decimal_chars(limit) + " bytes)"@
}

/// The message reported when an identifier cannot be used as a filename.
pub open spec fn unsafe_identifier_message(id: Seq<char>) -> Seq<char> {
    "issue identifier is not a safe filename: "@ + id
}

impl BugcrawlError {
    /// The human-readable text of this error, which is also how the error is
    /// displayed to the user.
    pub fn text(&self) -> (s: String)
        ensures
            s@ == self.message@,
    {
        self.message.clone()
    }

    /// Wrap an already-rendered message, e.g. one produced by the HTTP or
    /// filesystem layer around this crate.
    pub fn from_message(message: String) -> (e: BugcrawlError)
        ensures
            e.message@ == message@,
    {
        BugcrawlError { message }
    }

    /// The error for a response with a non-success HTTP status code.
    pub fn protocol(status: u16) -> (e: BugcrawlError)
        ensures
            e.message@ == protocol_message(status as nat),
    {
        let mut message = String::from_str("unexpected response code: ");
        message.append(u64_decimal(status as u64).as_str());
        BugcrawlError { message }
    }

    /// The error for an issue body longer than the allowed maximum.
    pub fn oversize(issue_id: &str, size: usize, limit: usize) -> (e: BugcrawlError)
        ensures
            e.message@ == oversize_message(issue_id@, size as nat, limit as nat),
    {
        let mut message = String::from_str("issue ");
        message.append(issue_id);
        message.append(" was too big (");
        message.append(u64_decimal(size as u64).as_str());
        message.append(" bytes, max is ");
        message.append(u64_decimal(limit as u64).as_str());
        message.append(" bytes)");
        BugcrawlError { message }
    }

    /// The error for an identifier that is rejected as a filename component.
    pub fn unsafe_identifier(issue_id: &str) -> (e: BugcrawlError)
        ensures
            e.message@ == unsafe_identifier_message(issue_id@),
    {
        let mut message = String::from_str("issue identifier is not a safe filename: ");
        message.append(issue_id);
        BugcrawlError { message }
    }
}

} // verus!
