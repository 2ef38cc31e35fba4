//! Issue downloader: size enforcement and the crash-safe publish plan.
//!
//! A downloaded body is never written straight to its final path.  The plan
//! produced here names a temporary path and the final path; the caller writes
//! the body to the temporary path and then renames it, so the final path is
//! either absent or holds a completely written file.
use vstd::prelude::*;

use crate::error::oversize_message;
use crate::error::unsafe_identifier_message;
use crate::error::BugcrawlError;

verus! {

/// Maximum allowed size in bytes for any issue's JSON blob.
pub const MAX_ISSUE_LEN: usize = 10 * 1024 * 1024;

/// Whether `c` may appear in an identifier that is used as a filename
/// component: path separators and the NUL character are rejected.
pub open spec fn identifier_char_ok(c: char) -> bool {
    c != '/' && c != '\\' && c != '\u{0}'
}

/// Whether an identifier from the remote listing is safe to interpolate into
/// a filesystem path: non-empty, no forbidden character, and not one of the
/// relative directory names.
pub open spec fn identifier_ok(id: Seq<char>) -> bool {
    &&& id.len() > 0
    &&& (forall|i: int| 0 <= i < id.len() ==> identifier_char_ok(#[trigger] id[i]))
    &&& !(id.len() == 1 && id[0] == '.')
    &&& !(id.len() == 2 && id[0] == '.' && id[1] == '.')
}

/// Decide whether an identifier is safe to use as a filename component.
pub fn identifier_is_safe(id: &str) -> (r: bool)
    ensures
        r == identifier_ok(id@),
{
    let n = id.unicode_len();
    if n == 0 {
        return false;
    }
    let mut i: usize = 0;
    while i < n
        invariant
            i <= n,
            n == id@.len(),
            forall|j: int| 0 <= j < i ==> identifier_char_ok(#[trigger] id@[j]),
        decreases n - i,
    {
        let c = id.get_char(i);
        if c == '/' || c == '\\' || c == '\u{0}' {
            return false;
        }
        i = i + 1;
    }
    if n == 1 && id.get_char(0) == '.' {
        return false;
    }
    if n == 2 && id.get_char(0) == '.' && id.get_char(1) == '.' {
        return false;
    }
    true
}

/// The final path of an issue's local file: `<dir>/<id>.json`.
pub open spec fn issue_file_path(dir: Seq<char>, id: Seq<char>) -> Seq<char> {
    dir + "/"@ + id + ".json"@
}

/// The transient path used while writing an issue: `<dir>/<id>.json.tmp`.
pub open spec fn issue_tmp_path(dir: Seq<char>, id: Seq<char>) -> Seq<char> {
    issue_file_path(dir, id) + ".tmp"@
}

/// Given an issue identifier, return the local filesystem path where the
/// issue is stored.  If `tmp` is set, return the temporary file name to be
/// used while writing this issue's content.
pub fn path_for_issue(dir: &str, issue_id: &str, tmp: bool) -> (p: String)
    ensures
        !tmp ==> p@ == issue_file_path(dir@, issue_id@),
        tmp ==> p@ == issue_tmp_path(dir@, issue_id@),
{
    let mut p = dir.to_owned();
    p.append("/");
    p.append(issue_id);
    p.append(".json");
    if tmp {
        p.append(".tmp");
    }
    p
}

/// Everything the filesystem layer needs to publish one downloaded issue:
/// write `body` to `tmp_path`, then rename `tmp_path` to `final_path`.
#[derive(Debug)]
pub struct IssueWritePlan {
    pub issue_id: String,
    pub tmp_path: String,
    pub final_path: String,
    pub body: Vec<u8>,
}

/// Plan the persistence of one downloaded issue body.  The plan is produced
/// exactly when the identifier is a safe filename and the body does not
/// exceed [`MAX_ISSUE_LEN`]; an oversize body is discarded, so no partial
/// write can occur for it.
pub fn plan_issue_write(dir: &str, issue_id: &str, body: Vec<u8>) -> (r: Result<
    IssueWritePlan,
    BugcrawlError,
>)
    ensures
        r is Ok <==> identifier_ok(issue_id@) && body@.len() <= MAX_ISSUE_LEN,
        r matches Ok(plan) ==> {
            &&& plan.issue_id@ == issue_id@
            &&& plan.final_path@ == issue_file_path(dir@, issue_id@)
            &&& plan.tmp_path@ == issue_tmp_path(dir@, issue_id@)
            &&& plan.tmp_path@ != plan.final_path@
            &&& plan.body@ == body@
        },
        !identifier_ok(issue_id@) ==> (r matches Err(e) && e.message@ == unsafe_identifier_message(
            issue_id@,
        )),
        identifier_ok(issue_id@) && body@.len() > MAX_ISSUE_LEN ==> (r matches Err(e)
            && e.message@ == oversize_message(issue_id@, body@.len(), MAX_ISSUE_LEN as nat)),
{
    if !identifier_is_safe(issue_id) {
        return Err(BugcrawlError::unsafe_identifier(issue_id));
    }
    if body.len() > MAX_ISSUE_LEN {
        return Err(BugcrawlError::oversize(issue_id, body.len(), MAX_ISSUE_LEN));
    }
    let final_path = path_for_issue(dir, issue_id, false);
    let tmp_path = path_for_issue(dir, issue_id, true);
    proof {
        reveal_strlit(".tmp");
        assert(tmp_path@.len() == final_path@.len() + 4);
    }
    Ok(IssueWritePlan { issue_id: issue_id.to_owned(), tmp_path, final_path, body })
}

} // verus!
