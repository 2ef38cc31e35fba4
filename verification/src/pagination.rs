//! Pagination walker: traverse the listing endpoint page by page, accumulate
//! every issue key, and decide when coverage of the server-reported total has
//! been reached.
//!
//! The walker itself never performs a request: the caller fetches the page at
//! [`PageWalk::next_offset`] and feeds the decoded page back through
//! [`PageWalk::absorb_page`], which returns whether the walk is complete.
use vstd::prelude::*;

verus! {

/// One issue summary record of a listing page.
pub struct IssueListItem {
    pub id: String,
    pub key: String,
    pub synopsis: String,
    pub resolution: Option<String>,
    pub updated: String,
    pub created: String,
}

/// Representation of the "ListIssues" JSON response, which contains a page of
/// issue summary records.
pub struct IssueListPage {
    pub offset: usize,
    pub total: usize,
    pub sort: String,
    pub issues: Vec<IssueListItem>,
}

/// The views of a sequence of strings.
pub open spec fn string_views(v: Seq<String>) -> Seq<Seq<char>> {
    v.map_values(|s: String| s@)
}

/// The keys of a page's issue records, in page order.
pub open spec fn page_keys(page: IssueListPage) -> Seq<Seq<char>> {
    page.issues@.map_values(|item: IssueListItem| item.key@)
}

/// The offset the walker holds after absorbing `page`: the server's offset
/// for the page plus the number of records the page carried.
pub open spec fn walk_step_offset(page: IssueListPage) -> int {
    page.offset + page.issues@.len()
}

/// Whether `page` is the last page of the walk: the walk stops at the first
/// page whose offset plus record count covers the reported total.
pub open spec fn walk_step_done(page: IssueListPage) -> bool {
    walk_step_offset(page) >= page.total
}

/// The keys of every record across a sequence of pages, in served order.
pub open spec fn pages_keys(pages: Seq<IssueListPage>) -> Seq<Seq<char>>
    decreases pages.len(),
{
    if pages.len() == 0 {
        Seq::empty()
    } else {
        page_keys(pages[0]) + pages_keys(pages.drop_first())
    }
}

/// The number of issue records across a sequence of pages.
pub open spec fn pages_issue_count(pages: Seq<IssueListPage>) -> nat
    decreases pages.len(),
{
    if pages.len() == 0 {
        0
    } else {
        pages[0].issues@.len() + pages_issue_count(pages.drop_first())
    }
}

/// Pagination completeness: over any pages, the walker collects exactly one
/// identifier per issue record received — none skipped, none added.
pub proof fn lemma_pagination_completeness(pages: Seq<IssueListPage>)
    ensures
        pages_keys(pages).len() == pages_issue_count(pages),
    decreases pages.len(),
{
    if pages.len() > 0 {
        lemma_pagination_completeness(pages.drop_first());
    }
}

/// The number of issue records on the pages before page `p`.
pub open spec fn count_before(pages: Seq<IssueListPage>, p: int) -> nat
    decreases p,
{
    if p <= 0 {
        0
    } else {
        pages[0].issues@.len() + count_before(pages.drop_first(), p - 1)
    }
}

/// Pagination completeness, positionally: the key of record `j` of page `p`
/// stands at position `count_before(pages, p) + j` of the collected
/// sequence — every record is collected exactly once, whatever the page size.
pub proof fn lemma_pagination_positions(pages: Seq<IssueListPage>, p: int, j: int)
    requires
        0 <= p < pages.len(),
        0 <= j < pages[p].issues@.len(),
    ensures
        count_before(pages, p) + j < pages_keys(pages).len(),
        pages_keys(pages)[count_before(pages, p) + j] == pages[p].issues@[j].key@,
    decreases p,
{
    if p == 0 {
        assert(page_keys(pages[0])[j] == pages[0].issues@[j].key@);
    } else {
        lemma_pagination_positions(pages.drop_first(), p - 1, j);
        assert(pages.drop_first()[p - 1] == pages[p]);
        assert(page_keys(pages[0]).len() == pages[0].issues@.len());
    }
}

/// Pagination termination: when the server answers the requested offset with
/// at least one record, the walker's next offset strictly exceeds the
/// requested one; and as long as the page is not final, the distance to the
/// reported total strictly shrinks, so a server that keeps its accounting
/// consistent is exhausted after finitely many pages.
pub proof fn lemma_pagination_progress(requested: int, page: IssueListPage)
    requires
        page.offset == requested,
        page.issues@.len() > 0,
    ensures
        walk_step_offset(page) > requested,
        !walk_step_done(page) ==> page.total - walk_step_offset(page) < page.total - requested,
{
}

/// Taking the views of a string sequence commutes with appending one string.
pub proof fn lemma_string_views_push(s: Seq<String>, x: String)
    ensures
        string_views(s.push(x)) =~= string_views(s).push(x@),
{
    assert forall|j: int| 0 <= j < s.len() + 1 implies string_views(s.push(x))[j] == string_views(
        s,
    ).push(x@)[j] by {
        assert(string_views(s.push(x))[j] == s.push(x)[j]@);
    }
}

/// State of one traversal of the paginated listing.
pub struct PageWalk {
    offset: usize,
    ids: Vec<String>,
    finished: bool,
}

impl PageWalk {
    /// The identifiers accumulated so far, in served order.
    pub closed spec fn collected(self) -> Seq<Seq<char>> {
        string_views(self.ids@)
    }

    /// The offset at which the next page must be requested.
    pub closed spec fn next_offset_spec(self) -> int {
        self.offset as int
    }

    /// Whether the walk has reached coverage of the reported total.
    pub closed spec fn is_finished(self) -> bool {
        self.finished
    }

    /// Start a walk: nothing collected, first request at offset zero.
    pub fn new() -> (w: PageWalk)
        ensures
            w.collected() == Seq::<Seq<char>>::empty(),
            w.next_offset_spec() == 0,
            !w.is_finished(),
    {
        let w = PageWalk { offset: 0, ids: Vec::new(), finished: false };
        proof {
            assert(w.collected() =~= Seq::<Seq<char>>::empty());
        }
        w
    }

    /// The offset to send with the next listing request.
    pub fn next_offset(&self) -> (o: usize)
        ensures
            o as int == self.next_offset_spec(),
    {
        self.offset
    }

    /// Absorb one decoded listing page: append every record's key to the
    /// accumulated identifiers, advance the offset to the page's offset plus
    /// its record count, and report whether that covers the reported total.
    pub fn absorb_page(&mut self, page: &IssueListPage) -> (done: bool)
        requires
            !old(self).is_finished(),
            page.offset + page.issues@.len() <= usize::MAX,
        ensures
            final(self).collected() == old(self).collected() + page_keys(*page),
            final(self).next_offset_spec() == walk_step_offset(*page),
            done == walk_step_done(*page),
            final(self).is_finished() == done,
    {
        let ghost prior = self.ids@;
        let n = page.issues.len();
        let mut i: usize = 0;
        while i < n
            invariant
                i <= n,
                n == page.issues@.len(),
                string_views(self.ids@) =~= string_views(prior) + page_keys(*page).take(i as int),
            decreases n - i,
        {
            let ghost pre = self.ids@;
            let k = page.issues[i].key.clone();
            self.ids.push(k);
            proof {
                lemma_string_views_push(pre, k);
                assert(page_keys(*page)[i as int] == page.issues@[i as int].key@);
                assert(page_keys(*page).take(i as int + 1) =~= page_keys(*page).take(
                    i as int,
                ).push(page_keys(*page)[i as int]));
                assert(string_views(self.ids@) =~= string_views(prior) + page_keys(*page).take(
                    i as int + 1,
                ));
            }
            i = i + 1;
        }
        proof {
            assert(page_keys(*page).take(n as int) =~= page_keys(*page));
            assert(string_views(self.ids@) =~= string_views(prior) + page_keys(*page));
        }
        self.offset = page.offset + n;
        let done = self.offset >= page.total;
        self.finished = done;
        done
    }

    /// Borrow the identifiers accumulated so far.
    pub fn ids_ref(&self) -> (ids: &Vec<String>)
        ensures
            string_views(ids@) == self.collected(),
    {
        &self.ids
    }

    /// Hand out the complete identifier list once the walk has finished.
    pub fn into_ids(self) -> (ids: Vec<String>)
        requires
            self.is_finished(),
        ensures
            string_views(ids@) == self.collected(),
    {
        self.ids
    }
}

} // verus!
