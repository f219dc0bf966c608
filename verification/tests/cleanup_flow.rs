use onepurge::cleanup::{
    audit_entry, cleanup_action, download_cutoff, is_old_download, select_eligible, CleanupAction,
    CleanupProgress, CleanupRequestError, CleanupStatus,
};
use onepurge::model::{SafetyLevel, ScanCategory, ScanItem};

fn item(id: &str, path: &str, category: ScanCategory, safety: SafetyLevel, size: u64) -> ScanItem {
    ScanItem {
        id: id.to_string(),
        path: path.to_string(),
        display_name: format!("{} item", id),
        description: String::new(),
        size_bytes: size,
        safety,
        category,
        last_modified: None,
    }
}

#[test]
fn progress_counts_freed_bytes_of_successes_only() {
    let a = item("a", "/Users/me/.npm", ScanCategory::NodeCaches, SafetyLevel::Green, 100);
    let b = item("b", "/Users/me/.yarn", ScanCategory::NodeCaches, SafetyLevel::Green, 50);
    let mut p = CleanupProgress::start(2);
    assert_eq!(p.status, CleanupStatus::InProgress);
    p.begin_item(&a);
    assert_eq!(p.current_item.as_deref(), Some("a item"));
    p.record_outcome(&a, Ok(()));
    p.begin_item(&b);
    p.record_outcome(&b, Err("denied".to_string()));
    p.finish();
    assert_eq!(p.status, CleanupStatus::Completed);
    assert_eq!(p.current_item, None);
    assert_eq!(p.completed_items, 2);
    assert_eq!(p.total_items, 2);
    assert_eq!(p.bytes_freed, 100);
    assert!(p.results[0].success);
    assert_eq!(p.results[1].error.as_deref(), Some("denied"));
    assert_eq!(p.results[1].item_id, "b");
    assert_eq!(p.results[1].size_bytes, 50);
}

#[test]
fn categories_map_to_their_removal() {
    assert_eq!(cleanup_action(ScanCategory::DockerImages), CleanupAction::PruneDockerImages);
    assert_eq!(cleanup_action(ScanCategory::DockerBuildCache), CleanupAction::PruneDockerBuildCache);
    assert_eq!(cleanup_action(ScanCategory::XcodeSimulators), CleanupAction::DeleteSimulators);
    assert_eq!(cleanup_action(ScanCategory::HomebrewCache), CleanupAction::HomebrewCleanup);
    assert_eq!(cleanup_action(ScanCategory::Trash), CleanupAction::EmptyTrash);
    assert_eq!(cleanup_action(ScanCategory::OldDownloads), CleanupAction::DeleteOldDownloads);
    assert_eq!(cleanup_action(ScanCategory::TimeMachineSnapshots), CleanupAction::DeleteTimeMachineSnapshots);
    assert_eq!(cleanup_action(ScanCategory::NodeDependencies), CleanupAction::DeletePath);
}

#[test]
fn audit_entries_record_the_outcome() {
    let a = item("a", "/Users/me/.npm", ScanCategory::NodeCaches, SafetyLevel::Green, 100);
    let e = audit_entry(&a, &Err("boom".to_string()), 1234);
    assert_eq!(e.id, 0);
    assert_eq!(e.item_path, "/Users/me/.npm");
    assert_eq!(e.item_display_name, "a item");
    assert_eq!(e.category, "node_caches");
    assert_eq!(e.deleted_at, 1234);
    assert!(!e.success);
    assert_eq!(e.error_message.as_deref(), Some("boom"));
    assert!(audit_entry(&a, &Ok(()), 1).success);
}

#[test]
fn only_requested_plausible_items_short_of_red_are_selected() {
    let items = vec![
        item("a", "/Users/me/.npm/_cacache", ScanCategory::NodeCaches, SafetyLevel::Green, 1),
        item("b", "/Users/me/.npm/x", ScanCategory::NodeCaches, SafetyLevel::Yellow, 1),
        item("c", "/etc/passwd", ScanCategory::NodeCaches, SafetyLevel::Green, 1),
        item("d", "docker://images", ScanCategory::DockerImages, SafetyLevel::Green, 1),
        item("e", "/Users/me/.yarn", ScanCategory::NodeCaches, SafetyLevel::Green, 1),
    ];
    let ids = vec!["a".to_string(), "b".to_string(), "c".to_string(), "d".to_string()];
    let r = select_eligible(items, &ids, Some("/Users/me")).unwrap();
    let chosen: Vec<&str> = r.iter().map(|i| i.id.as_str()).collect();
    assert_eq!(chosen, vec!["a", "b", "d"]);
}

#[test]
fn red_items_are_never_selected() {
    let items = vec![
        item("r", "/Users/me/.npm/x", ScanCategory::NodeCaches, SafetyLevel::Red, 1),
        item("y", "/Users/me/.Trash", ScanCategory::Trash, SafetyLevel::Yellow, 1),
    ];
    let ids = vec!["r".to_string(), "y".to_string()];
    let r = select_eligible(items, &ids, Some("/Users/me")).unwrap();
    let chosen: Vec<&str> = r.iter().map(|i| i.id.as_str()).collect();
    assert_eq!(chosen, vec!["y"]);
}

#[test]
fn a_request_with_nothing_eligible_is_refused() {
    let items = vec![item("b", "/Users/me/.npm", ScanCategory::NodeCaches, SafetyLevel::Red, 1)];
    let r = select_eligible(items, &vec!["b".to_string()], Some("/Users/me"));
    assert_eq!(r.unwrap_err(), CleanupRequestError::NoEligibleItems);
    assert_eq!(
        CleanupRequestError::NoEligibleItems.describe(),
        "No eligible items selected for cleanup"
    );
    let r = select_eligible(Vec::new(), &Vec::new(), None);
    assert!(r.is_err());
}

#[test]
fn downloads_older_than_ninety_days_are_old() {
    let now = 10_000_000;
    let cutoff = download_cutoff(now);
    assert_eq!(cutoff, now - 90 * 24 * 60 * 60);
    assert!(is_old_download(Some(cutoff - 1), cutoff));
    assert!(!is_old_download(Some(cutoff), cutoff));
    assert!(!is_old_download(None, cutoff));
}
