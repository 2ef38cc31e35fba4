//! Unit tests for the individual components: decimal rendering, status
//! classification, URLs, paths, identifier sanitization, the size cap, and
//! the inventory filter.

use bugcrawl::check_status;
use bugcrawl::identifier_is_safe;
use bugcrawl::issue_url;
use bugcrawl::listing_url;
use bugcrawl::missing_ids;
use bugcrawl::path_for_issue;
use bugcrawl::plan_issue_write;
use bugcrawl::u64_decimal;
use bugcrawl::MAX_ISSUE_LEN;

#[test]
fn decimal_rendering() {
    assert_eq!(u64_decimal(0), "0");
    assert_eq!(u64_decimal(7), "7");
    assert_eq!(u64_decimal(10), "10");
    assert_eq!(u64_decimal(407), "407");
    assert_eq!(u64_decimal(10485760), "10485760");
    assert_eq!(u64_decimal(u64::MAX), "18446744073709551615");
}

#[test]
fn success_statuses_pass() {
    assert!(check_status(200).is_ok());
    assert!(check_status(204).is_ok());
    assert!(check_status(299).is_ok());
}

#[test]
fn non_success_statuses_fail_with_protocol_error() {
    let e = check_status(500).unwrap_err();
    assert_eq!(e.message, "unexpected response code: 500");
    let e = check_status(404).unwrap_err();
    assert_eq!(e.message, "unexpected response code: 404");
    assert!(check_status(199).is_err());
    assert!(check_status(300).is_err());
    assert!(check_status(301).is_err());
}

#[test]
fn error_text_is_the_message() {
    let e = check_status(503).unwrap_err();
    assert_eq!(e.text(), "unexpected response code: 503");
    assert_eq!(e.text(), e.message);
}

#[test]
fn endpoint_urls() {
    assert_eq!(
        listing_url("created", 0),
        "https://smartos.org/bugview/index.json?sort=created&offset=0"
    );
    assert_eq!(
        listing_url("updated", 2450),
        "https://smartos.org/bugview/index.json?sort=updated&offset=2450"
    );
    assert_eq!(
        issue_url("MANATEE-400"),
        "https://smartos.org/bugview/fulljson/MANATEE-400"
    );
}

#[test]
fn issue_paths() {
    assert_eq!(path_for_issue("bugdb.files", "OS-1234", false), "bugdb.files/OS-1234.json");
    assert_eq!(path_for_issue("bugdb.files", "OS-1234", true), "bugdb.files/OS-1234.json.tmp");
}

#[test]
fn identifier_sanitization() {
    assert!(identifier_is_safe("PROJECT-123"));
    assert!(identifier_is_safe("OS_1"));
    assert!(!identifier_is_safe(""));
    assert!(!identifier_is_safe("."));
    assert!(!identifier_is_safe(".."));
    assert!(!identifier_is_safe("a/b"));
    assert!(!identifier_is_safe("..\\up"));
    assert!(!identifier_is_safe("nul\u{0}byte"));
    assert!(identifier_is_safe("..."));
}

#[test]
fn body_at_cap_succeeds() {
    let body = vec![b'x'; MAX_ISSUE_LEN];
    let plan = plan_issue_write("bugdb.files", "OS-1", body.clone()).unwrap();
    assert_eq!(plan.issue_id, "OS-1");
    assert_eq!(plan.final_path, "bugdb.files/OS-1.json");
    assert_eq!(plan.tmp_path, "bugdb.files/OS-1.json.tmp");
    assert_ne!(plan.tmp_path, plan.final_path);
    assert_eq!(plan.body, body);
}

#[test]
fn body_over_cap_fails_with_oversize_error() {
    let body = vec![b'x'; MAX_ISSUE_LEN + 1];
    let e = plan_issue_write("bugdb.files", "OS-1", body).unwrap_err();
    assert_eq!(
        e.message,
        "issue OS-1 was too big (10485761 bytes, max is 10485760 bytes)"
    );
}

#[test]
fn unsafe_identifier_fails_before_any_write_plan() {
    let e = plan_issue_write("bugdb.files", "../escape", vec![b'{']).unwrap_err();
    assert_eq!(
        e.message,
        "issue identifier is not a safe filename: ../escape"
    );
}

#[test]
fn missing_subset_keeps_input_order() {
    let all = vec!["A".to_string(), "B".to_string(), "C".to_string()];
    let present = vec![false, true, false];
    let missing = missing_ids(&all, &present);
    assert_eq!(missing, vec!["A".to_string(), "C".to_string()]);
}

#[test]
fn missing_subset_empty_when_all_present() {
    let all = vec!["A".to_string(), "B".to_string(), "C".to_string()];
    let present = vec![true, true, true];
    let missing = missing_ids(&all, &present);
    assert!(missing.is_empty());
}

#[test]
fn missing_subset_everything_when_none_present() {
    let all = vec!["A".to_string(), "A".to_string(), "B".to_string()];
    let present = vec![false, false, false];
    let missing = missing_ids(&all, &present);
    assert_eq!(missing, all);
}
