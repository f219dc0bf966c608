use onepurge::classifier::{classify_all, classify_item, needs_project_check};
use onepurge::docker::{parse_docker_df, split_docker_size};
use onepurge::ids::hash_id;
use onepurge::model::{SafetyLevel, ScanCategory, ScanItem};
use onepurge::recipes::{
    derived_data_item, docker_build_cache_item, docker_images_item, gradle_cache_locations,
    derived_data_path, homebrew_item, humanize_bundle_id, is_hidden_name, library_cache_item,
    library_caches_path, location_item, location_path,
    node_cache_locations, node_modules_item, project_root_names, simulator_locations, walk_descends,
    walk_enters,
};
use onepurge::plausibility::is_path_plausible;
use onepurge::scan_result::build_scan_result;
use sha2::{Digest, Sha256};

fn item(id: &str, category: ScanCategory, size: u64) -> ScanItem {
    ScanItem {
        id: id.to_string(),
        path: format!("/Users/me/{}", id),
        display_name: id.to_string(),
        description: "something".to_string(),
        size_bytes: size,
        safety: SafetyLevel::Green,
        category,
        last_modified: None,
    }
}

#[test]
fn hash_id_is_the_start_of_the_sha256_hex_digest() {
    let expected: String = Sha256::digest(b"/a/b/node_modulesnode_dependencies")
        .iter()
        .map(|b| format!("{:02x}", b))
        .collect::<String>()[..16]
        .to_string();
    assert_eq!(hash_id("/a/b/node_modules", "node_dependencies"), expected);
    assert_eq!(hash_id("a", "b"), "fb8e20fc2e4c3f24");
    assert_eq!(hash_id("", "").len(), 16);
    assert_ne!(hash_id("a", "b"), "ab");
}

#[test]
fn dependency_folders_with_uncommitted_work_turn_yellow() {
    let i = item("app", ScanCategory::NodeDependencies, 10);
    let r = classify_item(i, true);
    assert_eq!(r.safety, SafetyLevel::Yellow);
    assert_eq!(
        r.description,
        "something (project has uncommitted changes - review before removing)"
    );
    assert_eq!(r.size_bytes, 10);
}

#[test]
fn red_dependency_folders_stay_red() {
    let mut i = item("app", ScanCategory::NodeDependencies, 10);
    i.safety = SafetyLevel::Red;
    let r = classify_item(i, true);
    assert_eq!(r.safety, SafetyLevel::Red);
    assert!(r.description.ends_with("(project has uncommitted changes - review before removing)"));
    let mut y = item("app", ScanCategory::NodeDependencies, 10);
    y.safety = SafetyLevel::Yellow;
    assert_eq!(classify_item(y, true).safety, SafetyLevel::Yellow);
}

#[test]
fn clean_projects_and_other_categories_are_unchanged() {
    let clean = classify_item(item("app", ScanCategory::NodeDependencies, 10), false);
    assert_eq!(clean, item("app", ScanCategory::NodeDependencies, 10));
    let other = classify_item(item("c", ScanCategory::NodeCaches, 10), true);
    assert_eq!(other, item("c", ScanCategory::NodeCaches, 10));
    assert!(needs_project_check(&item("app", ScanCategory::NodeDependencies, 1)));
    assert!(!needs_project_check(&item("c", ScanCategory::SystemCaches, 1)));
}

#[test]
fn classify_all_treats_missing_flags_as_clean() {
    let items = vec![
        item("a", ScanCategory::NodeDependencies, 1),
        item("b", ScanCategory::NodeDependencies, 2),
    ];
    let r = classify_all(items, &vec![true]);
    assert_eq!(r.len(), 2);
    assert_eq!(r[0].safety, SafetyLevel::Yellow);
    assert_eq!(r[1].safety, SafetyLevel::Green);
}

#[test]
fn scan_result_orders_categories_and_items_by_size() {
    let items = vec![
        item("n1", ScanCategory::NodeCaches, 5),
        item("s1", ScanCategory::SystemCaches, 100),
        item("n2", ScanCategory::NodeCaches, 50),
        item("g1", ScanCategory::GradleCache, 20),
        item("n3", ScanCategory::NodeCaches, 50),
    ];
    let r = build_scan_result(items, 7, 9);
    assert_eq!(r.started_at, 7);
    assert_eq!(r.completed_at, Some(9));
    assert_eq!(r.total_bytes, 225);
    let cats: Vec<ScanCategory> = r.categories.iter().map(|c| c.category).collect();
    assert_eq!(cats, vec![ScanCategory::NodeCaches, ScanCategory::SystemCaches, ScanCategory::GradleCache]);
    let totals: Vec<u64> = r.categories.iter().map(|c| c.total_bytes).collect();
    assert_eq!(totals, vec![105, 100, 20]);
    let ids: Vec<&str> = r.categories[0].items.iter().map(|i| i.id.as_str()).collect();
    assert_eq!(ids, vec!["n2", "n3", "n1"]);
    assert_eq!(r.categories[0].display_name, ScanCategory::NodeCaches.display_name());
    assert_eq!(r.categories[0].description, ScanCategory::NodeCaches.description());
    assert_eq!(totals.iter().sum::<u64>(), r.total_bytes);
}

#[test]
fn equal_totals_keep_first_appearance_order() {
    let items = vec![
        item("g", ScanCategory::GradleCache, 10),
        item("s", ScanCategory::SystemCaches, 10),
    ];
    let r = build_scan_result(items, 0, 0);
    let cats: Vec<ScanCategory> = r.categories.iter().map(|c| c.category).collect();
    assert_eq!(cats, vec![ScanCategory::GradleCache, ScanCategory::SystemCaches]);
}

#[test]
fn empty_scan_has_no_categories() {
    let r = build_scan_result(Vec::new(), 1, 2);
    assert_eq!(r.total_bytes, 0);
    assert!(r.categories.is_empty());
}

#[test]
fn category_keys_are_distinct() {
    let all = [
        ScanCategory::NodeDependencies, ScanCategory::NodeCaches, ScanCategory::DockerImages,
        ScanCategory::DockerBuildCache, ScanCategory::XcodeSimulators, ScanCategory::XcodeDerivedData,
        ScanCategory::GradleCache, ScanCategory::SystemCaches, ScanCategory::HomebrewCache,
        ScanCategory::Trash, ScanCategory::OldDownloads, ScanCategory::TimeMachineSnapshots,
        ScanCategory::RustTargets, ScanCategory::CargoCaches, ScanCategory::PythonCaches,
        ScanCategory::PythonVenvs, ScanCategory::GoCache, ScanCategory::MavenCache,
        ScanCategory::RubyCache, ScanCategory::DotnetCache, ScanCategory::FlutterCache,
        ScanCategory::CocoaPodsCache, ScanCategory::ComposerCache, ScanCategory::IdeCaches,
        ScanCategory::XcodeDeviceSupport, ScanCategory::XcodeArchives, ScanCategory::BrowserCaches,
        ScanCategory::SystemLogs, ScanCategory::IosBackups, ScanCategory::Documents, ScanCategory::AppData,
    ];
    let mut keys: Vec<&str> = all.iter().map(|c| c.as_str()).collect();
    keys.sort();
    keys.dedup();
    assert_eq!(keys.len(), all.len());
    assert_eq!(ScanCategory::NodeDependencies.as_str(), "node_dependencies");
    assert_eq!(ScanCategory::HomebrewCache.as_str(), "homebrew_cache");
}

#[test]
fn docker_sizes_split_into_number_and_unit() {
    assert_eq!(split_docker_size("1.2GB"), Some(("1.2".to_string(), 1_000_000_000)));
    assert_eq!(split_docker_size(" 500MB "), Some(("500".to_string(), 1_000_000)));
    assert_eq!(split_docker_size("10kB"), Some(("10".to_string(), 1_000)));
    assert_eq!(split_docker_size("3B"), Some(("3".to_string(), 1)));
    assert_eq!(split_docker_size("1.5 GB"), Some(("1.5".to_string(), 1_000_000_000)));
    assert_eq!(split_docker_size("0B"), None);
    assert_eq!(split_docker_size("0"), None);
    assert_eq!(split_docker_size("12TB"), Some(("12T".to_string(), 1)));
    assert_eq!(split_docker_size("abc"), None);
    assert_eq!(split_docker_size(""), None);
}

#[test]
fn docker_report_gives_the_last_figures() {
    let report = "Images\t2GB\t1.2GB (60%)\nContainers\t1MB\t0B\nBuild Cache\t300MB\t250MB\nshort\tline\n";
    let r = parse_docker_df(report);
    assert_eq!(r.images, Some("1.2GB".to_string()));
    assert_eq!(r.build_cache, Some("250MB".to_string()));
    let r = parse_docker_df("Images\t1GB\t10MB\r\nImages\t1GB\t20MB\r\n");
    assert_eq!(r.images, Some("20MB".to_string()));
    assert_eq!(r.build_cache, None);
    let r = parse_docker_df("Images\t1GB\t   \n");
    assert_eq!(r.images, Some("0".to_string()));
    let r = parse_docker_df("");
    assert_eq!(r.images, None);
}

#[test]
fn bundle_ids_are_humanized() {
    assert_eq!(humanize_bundle_id("com.apple.Safari"), "Safari");
    assert_eq!(humanize_bundle_id("Homebrew"), "Homebrew");
    assert_eq!(humanize_bundle_id("org.example."), "");
}

#[test]
fn library_caches_below_fifty_megabytes_are_skipped() {
    assert!(library_cache_item("/L/C/com.x.Y", "com.x.Y", 49_999_999, None).is_none());
    let i = library_cache_item("/L/C/com.x.Y", "com.x.Y", 50_000_000, Some(3)).unwrap();
    assert_eq!(i.display_name, "Y cache");
    assert_eq!(i.category, ScanCategory::SystemCaches);
    assert_eq!(i.id, hash_id("/L/C/com.x.Y", "system_caches"));
    assert_eq!(i.last_modified, Some(3));
}

#[test]
fn found_items_are_named_after_their_project() {
    assert!(node_modules_item("/p/app/node_modules", "app", 0, None).is_none());
    let i = node_modules_item("/p/app/node_modules", "app", 42, None).unwrap();
    assert_eq!(i.display_name, "app/node_modules");
    assert_eq!(i.safety, SafetyLevel::Green);
    assert_eq!(i.id, hash_id("/p/app/node_modules", "node_dependencies"));
    let d = derived_data_item("/dd/My-App-abcdef", "My-App-abcdef", 9, None).unwrap();
    assert_eq!(d.display_name, "My-App (Xcode build data)");
    let d = derived_data_item("/dd/Plain", "Plain", 9, None).unwrap();
    assert_eq!(d.display_name, "Plain (Xcode build data)");
    assert!(derived_data_item("/dd/Plain", "Plain", 0, None).is_none());
}

#[test]
fn docker_items_use_fixed_paths() {
    assert!(docker_images_item(0).is_none());
    let i = docker_images_item(7).unwrap();
    assert_eq!(i.path, "docker://images");
    assert_eq!(i.id, hash_id("docker_images", "docker_images"));
    assert_eq!(i.last_modified, None);
    let b = docker_build_cache_item(8).unwrap();
    assert_eq!(b.path, "docker://build-cache");
    assert_eq!(b.category, ScanCategory::DockerBuildCache);
    assert!(docker_build_cache_item(0).is_none());
    let h = homebrew_item("/c/Homebrew", 5, None).unwrap();
    assert_eq!(h.display_name, "Homebrew package cache");
    assert!(homebrew_item("/c/Homebrew", 0, None).is_none());
}

#[test]
fn locations_are_listed() {
    let n = node_cache_locations();
    assert_eq!(n.len(), 5);
    assert_eq!(n[0].relative, ".npm/_cacache");
    assert_eq!(gradle_cache_locations()[1].name, "Gradle wrapper distributions");
    assert_eq!(simulator_locations()[0].relative, "Library/Developer/CoreSimulator/Devices");
    assert_eq!(project_root_names()[0], "Development");
    let i = location_item("/h/.npm/_cacache", &n[0], ScanCategory::NodeCaches, 3, None).unwrap();
    assert_eq!(i.display_name, "npm cache");
    assert_eq!(i.id, hash_id("/h/.npm/_cacache", "node_caches"));
    assert!(location_item("/h/.npm/_cacache", &n[0], ScanCategory::NodeCaches, 0, None).is_none());
    assert_eq!(location_path("/Users/me", &n[0]), "/Users/me/.npm/_cacache");
    assert_eq!(library_caches_path("/Users/me"), "/Users/me/Library/Caches");
    assert_eq!(derived_data_path("/Users/me"), "/Users/me/Library/Developer/Xcode/DerivedData");
    assert_eq!(library_caches_path("/Users/me/"), "/Users/me/Library/Caches");
    assert_eq!(location_path("/", &n[4]), "/.pnpm-store");
}

#[test]
fn joining_paths_agrees_with_path_buffers() {
    for base in ["", "/", "/Users/me", "/Users/me/", "rel", "a//", "."] {
        for name in ["Library/Caches", ".npm", "x", "/abs/olute", "", "a/"] {
            let expected = std::path::Path::new(base).join(name).to_string_lossy().to_string();
            assert_eq!(onepurge::path::join_path(base, name), expected, "base {:?} name {:?}", base, name);
        }
    }
}

#[test]
fn found_cache_items_pass_the_cleanup_recheck() {
    let home = Some("/Users/me");
    for l in node_cache_locations() {
        assert!(is_path_plausible(&location_path("/Users/me", &l), &ScanCategory::NodeCaches, home));
    }
    for l in gradle_cache_locations() {
        assert!(is_path_plausible(&location_path("/Users/me", &l), &ScanCategory::GradleCache, home));
    }
    let caches = onepurge::path::join_path(&library_caches_path("/Users/me"), "com.apple.Safari");
    assert!(is_path_plausible(&caches, &ScanCategory::SystemCaches, home));
    let dd = onepurge::path::join_path(&derived_data_path("/Users/me"), "App-abc");
    assert!(is_path_plausible(&dd, &ScanCategory::XcodeDerivedData, home));
}

#[test]
fn the_walk_reports_dependency_folders_without_entering_them() {
    assert!(walk_enters("src"));
    assert!(!walk_enters(".git"));
    assert!(!walk_enters(".cache"));
    assert!(walk_enters("node_modules"));
    assert!(!walk_descends("node_modules"));
    assert!(walk_descends("src"));
    assert!(!walk_descends(".git"));
    assert!(is_hidden_name(".x"));
    assert!(!is_hidden_name("x"));
    assert!(!is_hidden_name(""));
}
