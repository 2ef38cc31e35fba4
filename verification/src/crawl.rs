//! Crawl orchestrator: the end-to-end sequence as a state machine.
//!
//! The crawl proceeds through three phases.  While `Listing`, the caller
//! fetches listing pages at [`Crawl::next_offset`] and feeds them through
//! [`Crawl::on_page`].  Once the listing is complete, the caller reports for
//! every collected identifier whether a local file exists
//! ([`Crawl::on_inventory`]), which fixes the missing subset.  While
//! `Downloading`, the caller fetches the body of each pending issue in order
//! and turns it into a write plan through [`Crawl::on_issue_body`].
//!
//! All network requests, sleeps and filesystem operations happen outside this
//! crate, strictly one at a time; any failure they report aborts the run.
use vstd::prelude::*;

use crate::download::identifier_ok;
use crate::download::issue_file_path;
use crate::download::issue_tmp_path;
use crate::download::plan_issue_write;
use crate::download::IssueWritePlan;
use crate::download::MAX_ISSUE_LEN;
use crate::error::oversize_message;
use crate::error::unsafe_identifier_message;
use crate::error::BugcrawlError;
use crate::inventory::missing_ids;
use crate::inventory::missing_of;
use crate::pagination::page_keys;
use crate::pagination::string_views;
use crate::pagination::walk_step_done;
use crate::pagination::walk_step_offset;
use crate::pagination::IssueListPage;
use crate::pagination::PageWalk;

verus! {

/// BugcrawlParams is used by consumers (i.e., `main()`) to describe what they
/// want to do.
pub struct BugcrawlParams<'a> {
    /// local directory into which to store issue contents
    pub filepath: &'a str,
}

/// The stage a crawl has reached.
pub enum CrawlPhase {
    /// Walking the paginated listing endpoint.
    Listing,
    /// Listing complete; waiting for the local-inventory answer.
    Inventory,
    /// Fetching the missing issues, one at a time, in order.
    Downloading,
}

/// The state of one crawl of the bugview service.
pub struct Crawl {
    /// path to the local directory of bug files
    filepath: String,
    /// traversal of the paginated listing
    walk: PageWalk,
    /// identifiers with no completed local file, fixed by `on_inventory`
    missing: Vec<String>,
    /// how many of `missing` have been handed to the downloader
    next_idx: usize,
    /// current stage
    phase: CrawlPhase,
}

impl Crawl {
    /// The stage the crawl has reached.
    pub closed spec fn phase(self) -> CrawlPhase {
        self.phase
    }

    /// The directory issue files are stored under.
    pub closed spec fn directory(self) -> Seq<char> {
        self.filepath@
    }

    /// Every identifier collected from the listing so far, in served order.
    pub closed spec fn collected(self) -> Seq<Seq<char>> {
        self.walk.collected()
    }

    /// The offset of the next listing request.
    pub closed spec fn next_offset_spec(self) -> int {
        self.walk.next_offset_spec()
    }

    /// The identifiers still to download, in first-seen order.
    pub closed spec fn missing_view(self) -> Seq<Seq<char>> {
        string_views(self.missing@)
    }

    /// How many of the missing issues have been handed out already.
    pub closed spec fn next_index(self) -> int {
        self.next_idx as int
    }

    /// The identifier of the issue the downloader works on next.
    pub open spec fn current_id(self) -> Seq<char> {
        self.missing_view()[self.next_index()]
    }

    /// Internal consistency of the state machine.
    pub closed spec fn wf(self) -> bool {
        &&& (self.phase is Listing ==> !self.walk.is_finished() && self.missing@.len() == 0
            && self.next_idx == 0)
        &&& (self.phase is Inventory ==> self.walk.is_finished() && self.missing@.len() == 0
            && self.next_idx == 0)
        &&& (self.phase is Downloading ==> self.next_idx <= self.missing@.len())
    }

    /// Start a crawl of the given target directory: nothing collected yet,
    /// and the first listing request goes out at offset zero.
    pub fn begin<'a>(params: &BugcrawlParams<'a>) -> (c: Crawl)
        ensures
            c.wf(),
            c.phase() is Listing,
            c.directory() == params.filepath@,
            c.collected() == Seq::<Seq<char>>::empty(),
            c.next_offset_spec() == 0,
    {
        Crawl {
            filepath: params.filepath.to_owned(),
            walk: PageWalk::new(),
            missing: Vec::new(),
            next_idx: 0,
            phase: CrawlPhase::Listing,
        }
    }

    /// The offset to send with the next listing request.
    pub fn next_offset(&self) -> (o: usize)
        requires
            self.phase() is Listing,
        ensures
            o as int == self.next_offset_spec(),
    {
        self.walk.next_offset()
    }

    /// Absorb one decoded listing page: collect its keys and advance the
    /// offset.  Returns true exactly when the page covers the reported
    /// total, which moves the crawl to the inventory stage.
    pub fn on_page(&mut self, page: &IssueListPage) -> (done: bool)
        requires
            old(self).wf(),
            old(self).phase() is Listing,
            page.offset + page.issues@.len() <= usize::MAX,
        ensures
            final(self).wf(),
            final(self).directory() == old(self).directory(),
            final(self).collected() == old(self).collected() + page_keys(*page),
            final(self).next_offset_spec() == walk_step_offset(*page),
            done == walk_step_done(*page),
            final(self).phase() is Inventory <==> done,
            final(self).phase() is Listing <==> !done,
    {
        let done = self.walk.absorb_page(page);
        if done {
            self.phase = CrawlPhase::Inventory;
        }
        done
    }

    /// Borrow the full identifier list, for the caller's existence checks.
    pub fn all_ids(&self) -> (ids: &Vec<String>)
        ensures
            string_views(ids@) == self.collected(),
    {
        self.walk.ids_ref()
    }

    /// Fix the missing subset: `present[i]` says whether the `i`-th collected
    /// identifier already has a completed local file.  Moves the crawl to the
    /// downloading stage, positioned at the first missing issue.
    pub fn on_inventory(&mut self, present: &Vec<bool>)
        requires
            old(self).wf(),
            old(self).phase() is Inventory,
            present@.len() == old(self).collected().len(),
        ensures
            final(self).wf(),
            final(self).phase() is Downloading,
            final(self).directory() == old(self).directory(),
            final(self).collected() == old(self).collected(),
            final(self).missing_view() == missing_of(old(self).collected(), present@),
            final(self).next_index() == 0,
    {
        let m = missing_ids(self.walk.ids_ref(), present);
        self.missing = m;
        self.next_idx = 0;
        self.phase = CrawlPhase::Downloading;
    }

    /// The identifier of the next issue to download, or `None` once every
    /// missing issue has been handed out and the crawl is complete.
    pub fn next_pending(&self) -> (r: Option<&String>)
        requires
            self.wf(),
            self.phase() is Downloading,
        ensures
            (r is Some) <==> self.next_index() < self.missing_view().len(),
            r matches Some(id) ==> id@ == self.current_id(),
    {
        if self.next_idx < self.missing.len() {
            Some(&self.missing[self.next_idx])
        } else {
            None
        }
    }

    /// How many issues the inventory step left to download.
    pub fn missing_count(&self) -> (n: usize)
        ensures
            n as int == self.missing_view().len(),
    {
        self.missing.len()
    }

    /// How many issues have been handed to the downloader so far, for
    /// progress reporting.
    pub fn downloaded_count(&self) -> (n: usize)
        ensures
            n as int == self.next_index(),
    {
        self.next_idx
    }

    /// Turn the fetched body of the current issue into a write plan and step
    /// to the next missing issue.  The plan is produced exactly when the
    /// identifier is a safe filename and the body is within the size cap; on
    /// an error nothing is written for the issue.  The state steps past the
    /// issue either way, so the error policy is the caller's: aborting the
    /// run (the default of this design) or logging and carrying on both keep
    /// the state machine consistent.
    pub fn on_issue_body(&mut self, body: Vec<u8>) -> (r: Result<IssueWritePlan, BugcrawlError>)
        requires
            old(self).wf(),
            old(self).phase() is Downloading,
            old(self).next_index() < old(self).missing_view().len(),
        ensures
            final(self).wf(),
            final(self).phase() is Downloading,
            final(self).directory() == old(self).directory(),
            final(self).collected() == old(self).collected(),
            final(self).missing_view() == old(self).missing_view(),
            final(self).next_index() == old(self).next_index() + 1,
            r is Ok <==> identifier_ok(old(self).current_id()) && body@.len() <= MAX_ISSUE_LEN,
            r matches Ok(plan) ==> {
                &&& plan.issue_id@ == old(self).current_id()
                &&& plan.final_path@ == issue_file_path(old(self).directory(), old(
                    self,
                ).current_id())
                &&& plan.tmp_path@ == issue_tmp_path(old(self).directory(), old(self).current_id())
                &&& plan.tmp_path@ != plan.final_path@
                &&& plan.body@ == body@
            },
            !identifier_ok(old(self).current_id()) ==> (r matches Err(e) && e.message@
                == unsafe_identifier_message(old(self).current_id())),
            identifier_ok(old(self).current_id()) && body@.len() > MAX_ISSUE_LEN ==> (r matches Err(
                e,
            ) && e.message@ == oversize_message(
                old(self).current_id(),
                body@.len(),
                MAX_ISSUE_LEN as nat,
            )),
    {
        let r = plan_issue_write(self.filepath.as_str(), self.missing[self.next_idx].as_str(), body);
        let n = self.missing.len();
        proof {
            assert(old(self).missing_view().len() == n);
        }
        self.next_idx = self.next_idx + 1;
        r
    }
}

} // verus!
