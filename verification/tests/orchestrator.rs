//! Tests of the pagination walker and of the end-to-end crawl state machine
//! against a synthetic listing service.

use bugcrawl::BugcrawlParams;
use bugcrawl::Crawl;
use bugcrawl::IssueListItem;
use bugcrawl::IssueListPage;
use bugcrawl::PageWalk;

fn item(key: &str) -> IssueListItem {
    IssueListItem {
        id: format!("id-{}", key),
        key: key.to_string(),
        synopsis: format!("synopsis of {}", key),
        resolution: None,
        updated: "2020-03-01T00:00:00Z".to_string(),
        created: "2020-02-01T00:00:00Z".to_string(),
    }
}

fn page(offset: usize, total: usize, keys: &[&str]) -> IssueListPage {
    IssueListPage {
        offset,
        total,
        sort: "created".to_string(),
        issues: keys.iter().map(|k| item(k)).collect(),
    }
}

/// Serve `keys` in pages of size `k` the way the listing endpoint does, and
/// return the pages.
fn paginate(keys: &[&str], k: usize) -> Vec<IssueListPage> {
    let total = keys.len();
    let mut pages = Vec::new();
    let mut offset = 0;
    loop {
        let end = (offset + k).min(total);
        pages.push(page(offset, total, &keys[offset..end]));
        offset = end;
        if offset >= total {
            return pages;
        }
    }
}

#[test]
fn walker_collects_every_key_across_pages() {
    let keys = ["OS-1", "OS-2", "OS-3", "OS-4", "OS-5"];
    for k in 1..=6 {
        let mut walk = PageWalk::new();
        let mut requested = Vec::new();
        let mut done = false;
        for p in paginate(&keys, k) {
            assert!(!done, "walker asked for a page after finishing");
            requested.push(walk.next_offset());
            done = walk.absorb_page(&p);
        }
        assert!(done);
        // offsets requested strictly increase
        for w in requested.windows(2) {
            assert!(w[0] < w[1]);
        }
        let ids = walk.into_ids();
        assert_eq!(ids, keys.iter().map(|s| s.to_string()).collect::<Vec<_>>());
    }
}

#[test]
fn walker_keeps_duplicates_of_the_source() {
    let keys = ["OS-1", "OS-1", "OS-2"];
    let mut walk = PageWalk::new();
    for p in paginate(&keys, 2) {
        walk.absorb_page(&p);
    }
    assert_eq!(walk.into_ids(), vec!["OS-1", "OS-1", "OS-2"]);
}

#[test]
fn walker_stops_at_first_covering_page() {
    let mut walk = PageWalk::new();
    // a page that already covers the reported total ends the walk at once,
    // even when a larger listing could have followed
    let done = walk.absorb_page(&page(0, 2, &["A", "B"]));
    assert!(done);
    assert_eq!(walk.next_offset(), 2);
}

#[test]
fn walker_reports_not_done_while_total_uncovered() {
    let mut walk = PageWalk::new();
    let done = walk.absorb_page(&page(0, 3, &["A", "B"]));
    assert!(!done);
    assert_eq!(walk.next_offset(), 2);
    let done = walk.absorb_page(&page(2, 3, &["C"]));
    assert!(done);
    assert_eq!(walk.next_offset(), 3);
}

/// Run a full crawl against a synthetic dataset: `keys` served in pages of
/// size `k`, with `existing` already on disk.  Returns the identifiers the
/// crawl downloaded, in order.
fn run_crawl(keys: &[&str], k: usize, existing: &[&str]) -> Vec<String> {
    let params = BugcrawlParams { filepath: "bugdb.files" };
    let mut crawl = Crawl::begin(&params);
    let mut done = false;
    for p in paginate(keys, k) {
        assert!(!done);
        assert_eq!(crawl.next_offset(), p.offset);
        done = crawl.on_page(&p);
    }
    assert!(done);
    let all = crawl.all_ids().clone();
    assert_eq!(all.len(), keys.len());
    let present: Vec<bool> = all.iter().map(|id| existing.contains(&id.as_str())).collect();
    crawl.on_inventory(&present);
    let mut downloaded = Vec::new();
    while let Some(id) = crawl.next_pending() {
        let id = id.clone();
        assert_eq!(crawl.downloaded_count(), downloaded.len());
        let body = format!("{{\"key\":\"{}\"}}", id).into_bytes();
        let plan = crawl.on_issue_body(body.clone()).unwrap();
        assert_eq!(plan.issue_id, id);
        assert_eq!(plan.final_path, format!("bugdb.files/{}.json", id));
        assert_eq!(plan.tmp_path, format!("bugdb.files/{}.json.tmp", id));
        assert_eq!(plan.body, body);
        downloaded.push(id);
    }
    downloaded
}

#[test]
fn crawl_downloads_exactly_the_missing_issues_in_order() {
    let keys = ["A", "B", "C"];
    assert_eq!(run_crawl(&keys, 2, &["B"]), vec!["A", "C"]);
}

#[test]
fn crawl_downloads_everything_on_an_empty_directory() {
    let keys = ["OS-1", "OS-2", "OS-3", "OS-4", "OS-5"];
    assert_eq!(run_crawl(&keys, 2, &[]), keys.iter().map(|s| s.to_string()).collect::<Vec<_>>());
}

#[test]
fn second_run_downloads_nothing() {
    let keys = ["OS-1", "OS-2", "OS-3"];
    // first run over an empty directory downloads everything
    let first = run_crawl(&keys, 2, &[]);
    assert_eq!(first.len(), 3);
    // on the unchanged dataset, everything downloaded then is now on disk,
    // so the second run's missing set is empty
    let existing: Vec<&str> = first.iter().map(|s| s.as_str()).collect();
    let second = run_crawl(&keys, 2, &existing);
    assert!(second.is_empty());
}

#[test]
fn oversize_issue_aborts_the_downloading_stage() {
    let params = BugcrawlParams { filepath: "bugdb.files" };
    let mut crawl = Crawl::begin(&params);
    assert!(crawl.on_page(&page(0, 1, &["OS-1"])));
    crawl.on_inventory(&vec![false]);
    assert!(crawl.next_pending().is_some());
    let body = vec![b'x'; bugcrawl::MAX_ISSUE_LEN + 1];
    let e = crawl.on_issue_body(body).unwrap_err();
    assert_eq!(
        e.message,
        "issue OS-1 was too big (10485761 bytes, max is 10485760 bytes)"
    );
}
