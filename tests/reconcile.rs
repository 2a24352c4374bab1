use watchvuln::collector::{collect, collect_and_reconcile, reconcile_all};
use watchvuln::notify::{all_delivered, record_delivery, should_enrich};
use watchvuln::reconcile::{list_to_text, merge_record, reconcile_record, Outcome};
use watchvuln::record::VulnInfo;
use watchvuln::severity::Severity;
use watchvuln::store::Store;

fn raw(key: &str, severity: Severity, tags: &[&str]) -> VulnInfo {
    VulnInfo {
        unique_key: key.to_string(),
        title: format!("title of {}", key),
        description: "description".to_string(),
        severity,
        cve: key.to_string(),
        disclosure: "2024-05-17".to_string(),
        references: vec!["https://example.org/a".to_string()],
        solutions: "upgrade".to_string(),
        from: "https://example.org".to_string(),
        tags: tags.iter().map(|t| t.to_string()).collect(),
        reasons: vec![],
        github_search: vec![],
        is_valuable: true,
        pushed: false,
    }
}

fn strings(v: &[&str]) -> Vec<String> {
    v.iter().map(|s| s.to_string()).collect()
}

#[test]
fn fresh_key_is_created_unpushed() {
    let mut store = Store::new();
    let out = store.reconcile(raw("K-1", Severity::High, &["poc"]));
    assert_eq!(out, Outcome::New);
    let r = store.find_by_key("K-1").unwrap();
    assert_eq!(r.reasons, strings(&["created"]));
    assert!(!r.pushed);
    assert_eq!(store.count(), 1);
}

#[test]
fn fresh_key_ignores_incoming_bookkeeping() {
    let mut store = Store::new();
    let mut v = raw("K-2", Severity::Low, &[]);
    v.reasons = strings(&["stale"]);
    v.pushed = true;
    v.github_search = strings(&["https://github.com/x"]);
    store.reconcile(v);
    let r = store.find_by_key("K-2").unwrap();
    assert_eq!(r.reasons, strings(&["created"]));
    assert!(!r.pushed);
    assert!(r.github_search.is_empty());
}

#[test]
fn reconciling_twice_changes_nothing() {
    let mut store = Store::new();
    store.reconcile(raw("K-3", Severity::Medium, &["a"]));
    store.set_pushed("K-3", true);
    let first = store.find_by_key("K-3").unwrap();
    let out = store.reconcile(raw("K-3", Severity::Medium, &["a"]));
    assert_eq!(out, Outcome::Unchanged);
    let second = store.find_by_key("K-3").unwrap();
    assert_eq!(first.reasons, second.reasons);
    assert_eq!(first.pushed, second.pushed);
    assert!(second.pushed);
}

#[test]
fn changed_record_twice_is_unchanged_second_time() {
    let mut store = Store::new();
    store.reconcile(raw("K-4", Severity::Low, &["a"]));
    assert_eq!(store.reconcile(raw("K-4", Severity::High, &["a", "b"])), Outcome::Changed);
    let first = store.find_by_key("K-4").unwrap();
    assert_eq!(store.reconcile(raw("K-4", Severity::High, &["a", "b"])), Outcome::Unchanged);
    let second = store.find_by_key("K-4").unwrap();
    assert_eq!(first.reasons, second.reasons);
    assert_eq!(first.pushed, second.pushed);
}

#[test]
fn severity_change_resets_pushed_and_names_both_labels() {
    let mut store = Store::new();
    store.reconcile(raw("K-5", Severity::Low, &[]));
    store.set_pushed("K-5", true);
    let out = store.reconcile(raw("K-5", Severity::High, &[]));
    assert_eq!(out, Outcome::Changed);
    let r = store.find_by_key("K-5").unwrap();
    assert!(!r.pushed);
    assert_eq!(r.severity, Severity::High);
    assert_eq!(r.reasons, strings(&["created", "severity: Low => High"]));
}

#[test]
fn new_tag_resets_pushed() {
    let mut store = Store::new();
    store.reconcile(raw("K-6", Severity::Low, &["a"]));
    store.set_pushed("K-6", true);
    let out = store.reconcile(raw("K-6", Severity::Low, &["a", "b"]));
    assert_eq!(out, Outcome::Changed);
    let r = store.find_by_key("K-6").unwrap();
    assert!(!r.pushed);
    assert_eq!(r.tags, strings(&["a", "b"]));
    assert_eq!(r.reasons, strings(&["created", "tags: [a] => [a, b]"]));
}

#[test]
fn both_changes_append_severity_then_tags() {
    let old = raw("K-7", Severity::Medium, &[]);
    let mut stored = reconcile_record(None, old).0;
    stored.pushed = true;
    let (r, out) = merge_record(stored, raw("K-7", Severity::Critical, &["x"]));
    assert_eq!(out, Outcome::Changed);
    assert_eq!(
        r.reasons,
        strings(&["created", "severity: Medium => Critical", "tags: [] => [x]"])
    );
    assert!(!r.pushed);
}

#[test]
fn dropped_tag_is_no_change_and_keeps_stored_tags() {
    let mut store = Store::new();
    store.reconcile(raw("K-8", Severity::Low, &["a", "b"]));
    store.set_pushed("K-8", true);
    let out = store.reconcile(raw("K-8", Severity::Low, &["b"]));
    assert_eq!(out, Outcome::Unchanged);
    let r = store.find_by_key("K-8").unwrap();
    assert!(r.pushed);
    assert_eq!(r.tags, strings(&["a", "b"]));
}

#[test]
fn cosmetic_fields_refresh_without_notification() {
    let mut store = Store::new();
    store.reconcile(raw("K-9", Severity::Low, &[]));
    store.set_pushed("K-9", true);
    let mut v = raw("K-9", Severity::Low, &[]);
    v.title = "corrected title".to_string();
    v.description = "corrected".to_string();
    v.is_valuable = false;
    v.cve = "CVE-OTHER".to_string();
    let out = store.reconcile(v);
    assert_eq!(out, Outcome::Unchanged);
    let r = store.find_by_key("K-9").unwrap();
    assert_eq!(r.title, "corrected title");
    assert_eq!(r.description, "corrected");
    assert!(!r.is_valuable);
    assert_eq!(r.cve, "K-9");
    assert!(r.pushed);
    assert_eq!(r.reasons, strings(&["created"]));
}

#[test]
fn list_text_joins_with_commas() {
    assert_eq!(list_to_text(&strings(&[])), "[]");
    assert_eq!(list_to_text(&strings(&["a"])), "[a]");
    assert_eq!(list_to_text(&strings(&["a", "b", "c"])), "[a, b, c]");
}

#[test]
fn all_channels_must_succeed() {
    assert!(all_delivered(&vec![]));
    assert!(all_delivered(&vec![true, true]));
    assert!(!all_delivered(&vec![true, false]));
    assert!(!all_delivered(&vec![false, true, true]));
}

#[test]
fn delivery_marks_pushed_only_when_all_succeed() {
    let mut store = Store::new();
    store.reconcile(raw("K-10", Severity::High, &[]));
    assert!(!record_delivery(&mut store, "K-10", &vec![true, false]));
    assert!(!store.find_by_key("K-10").unwrap().pushed);
    assert_eq!(store.pending_records().len(), 1);
    assert!(record_delivery(&mut store, "K-10", &vec![true, true]));
    assert!(store.find_by_key("K-10").unwrap().pushed);
    assert!(store.pending_records().is_empty());
}

#[test]
fn delivery_of_unknown_key_changes_nothing() {
    let mut store = Store::new();
    assert!(!record_delivery(&mut store, "missing", &vec![true]));
    assert_eq!(store.count(), 0);
}

#[test]
fn pending_selects_valuable_unpushed() {
    let mut store = Store::new();
    store.reconcile(raw("A", Severity::High, &[]));
    let mut low = raw("B", Severity::Low, &[]);
    low.is_valuable = false;
    store.reconcile(low);
    store.reconcile(raw("C", Severity::High, &[]));
    store.set_pushed("C", true);
    store.reconcile(raw("D", Severity::Medium, &[]));
    let keys: Vec<String> = store.pending_records().into_iter().map(|r| r.unique_key).collect();
    assert_eq!(keys, strings(&["A", "D"]));
}

#[test]
fn enrichment_only_with_cve_and_enabled() {
    let mut v = raw("K-11", Severity::High, &[]);
    assert!(should_enrich(&v, true));
    assert!(!should_enrich(&v, false));
    v.cve = String::new();
    assert!(!should_enrich(&v, true));
}

#[test]
fn enrichment_is_kept_on_failed_delivery() {
    let mut store = Store::new();
    store.reconcile(raw("K-12", Severity::High, &[]));
    assert!(store.merge_enrichment("K-12", &strings(&["https://github.com/poc"])));
    assert!(!record_delivery(&mut store, "K-12", &vec![false, true]));
    let r = store.find_by_key("K-12").unwrap();
    assert_eq!(r.github_search, strings(&["https://github.com/poc"]));
    assert!(!r.pushed);
    assert!(!store.merge_enrichment("nope", &strings(&["x"])));
}

#[test]
fn failing_source_does_not_hide_others() {
    let results = vec![
        Ok(vec![raw("S1-a", Severity::Low, &[]), raw("S1-b", Severity::Low, &[])]),
        Err("source down".to_string()),
        Ok(vec![raw("S3-a", Severity::High, &[])]),
    ];
    let keys: Vec<String> = collect(results).into_iter().map(|r| r.unique_key).collect();
    assert_eq!(keys, strings(&["S1-a", "S1-b", "S3-a"]));
}

#[test]
fn all_sources_failing_gives_nothing() {
    let results: Vec<Result<Vec<VulnInfo>, String>> =
        vec![Err("a".to_string()), Err("b".to_string())];
    assert!(collect(results).is_empty());
}

#[test]
fn duplicate_key_in_one_batch_sees_first_effect() {
    let mut store = Store::new();
    let keys = reconcile_all(
        &mut store,
        vec![raw("DUP", Severity::Low, &[]), raw("DUP", Severity::High, &[])],
    );
    assert_eq!(keys, strings(&["DUP", "DUP"]));
    assert_eq!(store.count(), 1);
    let r = store.find_by_key("DUP").unwrap();
    assert_eq!(r.reasons, strings(&["created", "severity: Low => High"]));
}

#[test]
fn unchanged_keys_are_not_reported() {
    let mut store = Store::new();
    let first = collect_and_reconcile(&mut store, vec![Ok(vec![raw("U", Severity::Low, &[])])]);
    assert_eq!(first, strings(&["U"]));
    let second = collect_and_reconcile(&mut store, vec![Ok(vec![raw("U", Severity::Low, &[])])]);
    assert!(second.is_empty());
}

fn run_pass(store: &mut Store, batch: Vec<VulnInfo>, channels: &[bool]) -> usize {
    collect_and_reconcile(store, vec![Ok(batch)]);
    let mut dispatched = 0;
    for r in store.pending_records() {
        dispatched += 1;
        record_delivery(store, &r.unique_key, &channels.to_vec());
    }
    dispatched
}

#[test]
fn scenario_severity_upgrade_then_delivery() {
    let mut store = Store::new();
    store.reconcile(raw("CVE-TEST-1", Severity::Medium, &[]));
    let r = store.find_by_key("CVE-TEST-1").unwrap();
    assert!(!r.pushed);
    assert_eq!(r.reasons, strings(&["created"]));

    assert_eq!(store.reconcile(raw("CVE-TEST-1", Severity::Critical, &[])), Outcome::Changed);
    let r = store.find_by_key("CVE-TEST-1").unwrap();
    assert!(!r.pushed);
    assert_eq!(r.reasons, strings(&["created", "severity: Medium => Critical"]));

    assert_eq!(store.pending_records().len(), 1);
    assert!(record_delivery(&mut store, "CVE-TEST-1", &vec![true, true]));
    assert!(store.find_by_key("CVE-TEST-1").unwrap().pushed);

    let dispatched = run_pass(&mut store, vec![raw("CVE-TEST-1", Severity::Critical, &[])], &[true, true]);
    assert_eq!(dispatched, 0);
    let r = store.find_by_key("CVE-TEST-1").unwrap();
    assert!(r.pushed);
    assert_eq!(r.reasons, strings(&["created", "severity: Medium => Critical"]));
}

#[test]
fn scenario_failing_channel_retries_every_pass() {
    let mut store = Store::new();
    for _ in 0..5 {
        let dispatched =
            run_pass(&mut store, vec![raw("CVE-TEST-2", Severity::High, &[])], &[true, false]);
        assert_eq!(dispatched, 1);
        assert!(!store.find_by_key("CVE-TEST-2").unwrap().pushed);
    }
    let dispatched = run_pass(&mut store, vec![raw("CVE-TEST-2", Severity::High, &[])], &[true, true]);
    assert_eq!(dispatched, 1);
    assert!(store.find_by_key("CVE-TEST-2").unwrap().pushed);
    assert_eq!(run_pass(&mut store, vec![raw("CVE-TEST-2", Severity::High, &[])], &[true, false]), 0);
}

#[test]
fn row_round_trip_and_defaults() {
    let v = raw("ROW-1", Severity::Critical, &["t"]);
    let row = v.duplicate().to_row();
    assert_eq!(row.severtiy, "Critical");
    assert_eq!(row.tags, Some(strings(&["t"])));
    let back = VulnInfo::from_row(row);
    assert_eq!(back.severity, Severity::Critical);
    assert_eq!(back.tags, v.tags);
    assert_eq!(back.unique_key, v.unique_key);

    let mut row = v.to_row();
    row.severtiy = "unknown".to_string();
    row.references = None;
    row.reasons = None;
    let r = VulnInfo::from_row(row);
    assert_eq!(r.severity, Severity::Low);
    assert!(r.references.is_empty());
    assert!(r.reasons.is_empty());
}
