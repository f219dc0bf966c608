use onepurge::deletion::{
    contains_safe_project_dir, validate_path, validate_user_path, DeletionRefusal, ProjectMarkers,
};

fn no_markers() -> ProjectMarkers {
    ProjectMarkers { cargo_manifest_beside: Vec::new(), pyvenv_cfg_inside: Vec::new() }
}

fn marked_at(len: usize, cargo: &[usize], pyvenv: &[usize]) -> ProjectMarkers {
    ProjectMarkers {
        cargo_manifest_beside: (0..len).map(|i| cargo.contains(&i)).collect(),
        pyvenv_cfg_inside: (0..len).map(|i| pyvenv.contains(&i)).collect(),
    }
}
use onepurge::plausibility::is_path_plausible;
use onepurge::model::ScanCategory;

const HOME: &str = "/Users/me";

#[test]
fn caches_under_home_may_be_deleted() {
    assert_eq!(validate_path("/Users/me/Library/Caches/com.apple.Safari", HOME, &no_markers()), Ok(()));
    assert_eq!(validate_path("/Users/me/.npm/_cacache", HOME, &no_markers()), Ok(()));
    assert_eq!(validate_path("/Users/me/Library/Developer/Xcode/DerivedData/App-x", HOME, &no_markers()), Ok(()));
    assert_eq!(validate_path("/Users/me/.cargo/registry", HOME, &no_markers()), Ok(()));
}

#[test]
fn project_directories_may_be_deleted_anywhere_in_home() {
    assert_eq!(validate_path("/Users/me/code/app/node_modules", HOME, &no_markers()), Ok(()));
    assert_eq!(validate_path("/Users/me/code/py/.venv/lib", HOME, &no_markers()), Ok(()));
    assert_eq!(validate_path("/Users/me/code/py/__pycache__", HOME, &no_markers()), Ok(()));
    // components: /, Users, me, code, crate, target
    assert_eq!(validate_path("/Users/me/code/crate/target", HOME, &marked_at(6, &[5], &[])), Ok(()));
    assert_eq!(validate_path("/Users/me/code/py/venv/lib", HOME, &marked_at(7, &[], &[5])), Ok(()));
}

#[test]
fn target_and_venv_need_their_identifying_file() {
    assert_eq!(
        validate_path("/Users/me/Documents/target/thesis.pdf", HOME, &no_markers()),
        Err(DeletionRefusal::NotAllowlisted)
    );
    assert_eq!(
        validate_path("/Users/me/code/crate/target", HOME, &marked_at(6, &[], &[5])),
        Err(DeletionRefusal::NotAllowlisted)
    );
    assert_eq!(
        validate_path("/Users/me/code/py/venv", HOME, &marked_at(6, &[5], &[])),
        Err(DeletionRefusal::NotAllowlisted)
    );
    assert_eq!(
        validate_path("/Users/me/code/crate/target", HOME, &marked_at(6, &[4], &[])),
        Err(DeletionRefusal::NotAllowlisted)
    );
}

#[test]
fn paths_outside_home_are_refused() {
    assert_eq!(validate_path("/etc/passwd", HOME, &no_markers()), Err(DeletionRefusal::OutsideHome));
    assert_eq!(validate_path("/Users/meme/Library/Caches", HOME, &no_markers()), Err(DeletionRefusal::OutsideHome));
    assert_eq!(validate_path("/Users/other/node_modules", HOME, &no_markers()), Err(DeletionRefusal::OutsideHome));
    assert_eq!(validate_user_path("/tmp/x", HOME), Err(DeletionRefusal::OutsideHome));
}

#[test]
fn home_itself_is_refused() {
    assert_eq!(validate_path("/Users/me", HOME, &no_markers()), Err(DeletionRefusal::HomeItself));
    assert_eq!(validate_path("/Users/me/", HOME, &no_markers()), Err(DeletionRefusal::HomeItself));
    assert_eq!(validate_user_path("/Users/me", "/Users/me/"), Err(DeletionRefusal::HomeItself));
}

#[test]
fn unlisted_paths_are_refused() {
    assert_eq!(validate_path("/Users/me/Documents/thesis.pdf", HOME, &no_markers()), Err(DeletionRefusal::NotAllowlisted));
    assert_eq!(validate_path("/Users/me/Library", HOME, &no_markers()), Err(DeletionRefusal::NotAllowlisted));
    assert_eq!(
        validate_path("/Users/me/Library/CachesExtra", HOME, &no_markers()),
        Err(DeletionRefusal::NotAllowlisted)
    );
    assert_eq!(validate_path("/Users/me/.cargo/bin", HOME, &no_markers()), Err(DeletionRefusal::NotAllowlisted));
}

#[test]
fn user_paths_keep_top_level_folders() {
    assert_eq!(validate_user_path("/Users/me/Documents", HOME), Err(DeletionRefusal::ProtectedTopLevel));
    assert_eq!(validate_user_path("/Users/me/Library", HOME), Err(DeletionRefusal::ProtectedTopLevel));
    assert_eq!(validate_user_path("/Users/me/Documents/old", HOME), Ok(()));
    assert_eq!(validate_user_path("/Users/me/stuff", HOME), Ok(()));
}

#[test]
fn refusals_explain_themselves() {
    assert_eq!(DeletionRefusal::OutsideHome.describe(), "Refusing to delete path outside home directory");
    assert_eq!(DeletionRefusal::HomeItself.describe(), "Refusing to delete the home directory");
    assert_eq!(
        DeletionRefusal::NotAllowlisted.describe(),
        "Path does not match any known safe deletion pattern"
    );
    assert_eq!(DeletionRefusal::ProtectedTopLevel.describe(), "Refusing to delete protected top-level folder");
}

#[test]
fn safe_project_dirs_are_whole_components() {
    assert!(contains_safe_project_dir("/a/node_modules/b", &no_markers()));
    assert!(contains_safe_project_dir("venv", &marked_at(1, &[], &[0])));
    assert!(!contains_safe_project_dir("venv", &no_markers()));
    assert!(!contains_safe_project_dir("/a/node_modules2", &no_markers()));
    assert!(!contains_safe_project_dir("/a/targets", &marked_at(3, &[2], &[2])));
}

#[test]
fn command_categories_are_always_plausible() {
    for c in [
        ScanCategory::DockerImages,
        ScanCategory::DockerBuildCache,
        ScanCategory::HomebrewCache,
        ScanCategory::XcodeSimulators,
        ScanCategory::Trash,
        ScanCategory::OldDownloads,
        ScanCategory::TimeMachineSnapshots,
    ] {
        assert!(is_path_plausible("anything", &c, None));
    }
}

#[test]
fn unknown_home_makes_paths_implausible() {
    assert!(!is_path_plausible("/Users/me/.npm", &ScanCategory::NodeCaches, None));
}

#[test]
fn plausible_paths_match_their_category() {
    let h = Some(HOME);
    assert!(is_path_plausible("/Users/me/.npm/_cacache", &ScanCategory::NodeCaches, h));
    assert!(!is_path_plausible("/Users/me/.npmrc", &ScanCategory::NodeCaches, h));
    assert!(is_path_plausible("/Users/me/code/x/node_modules", &ScanCategory::NodeDependencies, h));
    assert!(!is_path_plausible("/Users/me/code/x", &ScanCategory::NodeDependencies, h));
    assert!(is_path_plausible("/Users/me/code/crate/target", &ScanCategory::RustTargets, h));
    assert!(is_path_plausible("/Users/me/code/py/.venv", &ScanCategory::PythonVenvs, h));
    assert!(!is_path_plausible("/Users/me/code/py/.venv/lib", &ScanCategory::PythonVenvs, h));
    assert!(is_path_plausible("/Users/me/code/py/env", &ScanCategory::PythonVenvs, h));
    assert!(is_path_plausible(
        "/Users/me/Library/Application Support/Code/Cache",
        &ScanCategory::IdeCaches,
        h
    ));
    assert!(is_path_plausible("/Users/me/Library/Caches/Google/Chrome", &ScanCategory::BrowserCaches, h));
    assert!(is_path_plausible("/Users/me/Library/Logs", &ScanCategory::SystemLogs, h));
    assert!(!is_path_plausible("/Users/me/Library/Logs", &ScanCategory::Documents, h));
    assert!(!is_path_plausible("/Users/me/Library/Logs", &ScanCategory::AppData, h));
}

#[test]
fn tampered_paths_are_implausible() {
    let h = Some(HOME);
    assert!(!is_path_plausible("/etc/node_modules", &ScanCategory::NodeDependencies, h));
    assert!(!is_path_plausible("/Users/me/Documents", &ScanCategory::SystemCaches, h));
    assert!(!is_path_plausible("/Users/me/Library/Caches/../../Documents", &ScanCategory::GoCache, h));
}
