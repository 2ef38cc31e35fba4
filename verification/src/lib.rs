/*!
 * Core of bugcrawl: crawl a "bugview" issue-tracking web service, discover
 * every issue identifier through its paginated listing endpoint, and plan the
 * download of each issue's JSON body into a local directory, skipping issues
 * that already have a completed local file.
 *
 * This crate holds the verified logic of the crawl: pagination bookkeeping,
 * local-inventory filtering, size enforcement, and the paths used for the
 * write-then-rename publish step.  The surrounding program performs the HTTP
 * requests, the sleeps, and the filesystem operations, feeding their results
 * back into the state machine defined here.
 */
pub mod crawl;
pub mod decimal;
pub mod download;
pub mod error;
pub mod http;
pub mod inventory;
pub mod pagination;

pub use crawl::BugcrawlParams;
pub use crawl::Crawl;
pub use crawl::CrawlPhase;
pub use decimal::u64_decimal;
pub use download::identifier_is_safe;
pub use download::path_for_issue;
pub use download::plan_issue_write;
pub use download::IssueWritePlan;
pub use download::MAX_ISSUE_LEN;
pub use error::BugcrawlError;
pub use http::check_status;
pub use http::issue_url;
pub use http::listing_url;
pub use http::BUGCRAWL_USER_AGENT;
pub use http::BUGVIEW_CONNECT_TIMEOUT;
pub use http::BUGVIEW_DELAY_GET_ISSUE;
pub use http::BUGVIEW_DELAY_LIST;
pub use http::BUGVIEW_REQUEST_TIMEOUT;
pub use inventory::missing_ids;
pub use pagination::IssueListItem;
pub use pagination::IssueListPage;
pub use pagination::PageWalk;
