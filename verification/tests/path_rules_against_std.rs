use onepurge::deletion::{
    contains_safe_project_dir, validate_path, validate_user_path, DeletionRefusal, ProjectMarkers,
};
use std::path::Path;

const SAFE: &[&str] = &[
    "Library/Caches", "Library/Developer/CoreSimulator", "Library/Developer/Xcode/DerivedData",
    "Library/Application Support/Code/Cache", "Library/Application Support/Code/CachedData",
    "Library/Application Support/Code/CachedExtensionVSIXs", "Library/Application Support/Cursor/Cache",
    "Library/Application Support/Cursor/CachedData", "Library/pnpm", ".npm", ".yarn", ".pnpm-store",
    ".expo", ".cargo/registry", ".cargo/git", ".cache/pip", ".conda/pkgs", ".mypy_cache", ".ruff_cache",
    "miniconda3/pkgs", "anaconda3/pkgs", "go/pkg", ".cache/go-build", ".m2/repository", ".gradle", ".gem",
    ".bundle/cache", ".nuget", ".dotnet", ".local/share/NuGet", ".pub-cache", ".dartServer", ".cocoapods",
    ".composer/cache", "Library/Logs", "Library/Developer/Xcode/iOS DeviceSupport",
    "Library/Developer/Xcode/watchOS DeviceSupport", "Library/Developer/Xcode/tvOS DeviceSupport",
    "Library/Developer/Xcode/Archives", "Library/Application Support/MobileSync/Backup",
];

const PROTECTED: &[&str] = &[
    "Library", "Documents", "Downloads", "Desktop", "Movies", "Music", "Pictures", "Public", "Applications",
];

/// Pretends that every folder holding a component has a Cargo.toml when its
/// index is even, and that every component holds a pyvenv.cfg when odd.
fn pretend_markers(path: &str) -> ProjectMarkers {
    let n = Path::new(path).components().count();
    ProjectMarkers {
        cargo_manifest_beside: (0..n).map(|i| i % 2 == 0).collect(),
        pyvenv_cfg_inside: (0..n).map(|i| i % 2 == 1).collect(),
    }
}

fn std_project_dir(path: &Path) -> bool {
    path.components().enumerate().any(|(i, c)| {
        let name = c.as_os_str().to_string_lossy();
        name == "node_modules" || name == ".venv" || name == ".tox" || name == "__pycache__"
            || (name == "target" && i % 2 == 0)
            || (name == "venv" && i % 2 == 1)
    })
}

fn std_scanned(canonical: &Path, home: &Path) -> Result<(), DeletionRefusal> {
    if !canonical.starts_with(home) {
        return Err(DeletionRefusal::OutsideHome);
    }
    if canonical == home {
        return Err(DeletionRefusal::HomeItself);
    }
    let relative = canonical.strip_prefix(home).unwrap();
    if SAFE.iter().any(|p| relative.starts_with(p)) || std_project_dir(canonical) {
        Ok(())
    } else {
        Err(DeletionRefusal::NotAllowlisted)
    }
}

fn std_user(canonical: &Path, home: &Path) -> Result<(), DeletionRefusal> {
    if !canonical.starts_with(home) {
        return Err(DeletionRefusal::OutsideHome);
    }
    if canonical == home {
        return Err(DeletionRefusal::HomeItself);
    }
    let relative = canonical.strip_prefix(home).unwrap();
    let components: Vec<_> = relative.components().collect();
    if components.len() == 1 {
        let name = components[0].as_os_str().to_string_lossy();
        if PROTECTED.iter().any(|p| *p == name) {
            return Err(DeletionRefusal::ProtectedTopLevel);
        }
    }
    Ok(())
}

const HOMES: &[&str] = &["/Users/me", "/Users/me/", "/Users//me", "/Users/./me", "Users/me", "/"];

const PATHS: &[&str] = &[
    "/Users/me",
    "/Users/me/",
    "/Users/me/.",
    "/Users/me/Library",
    "/Users/me/Library/Caches",
    "/Users/me/Library/Caches/",
    "/Users/me/./Library/Caches/x",
    "/Users/me//Library//Caches/x",
    "/Users/me/Library/CachesX",
    "/Users/me/Library/../Library/Caches",
    "/Users/me/../other/Library/Caches",
    "/Users/me/Documents",
    "/Users/me/Documents/",
    "/Users/me/Documents/a",
    "/Users/me/./Documents",
    "/Users/me/code/app/node_modules",
    "/Users/me/code/node_modules_x",
    "/Users/me/.cargo/registry/index",
    "/Users/me/.cargo",
    "/Users/me/Library/Application Support/Code/Cache",
    "/Users/mine/Library/Caches",
    "/etc/passwd",
    "Users/me/Library/Caches",
    "/Users/me/..",
    "/target",
    "/Users/me/a/target",
    "/Users/me/ab/target",
    "/Users/me/a/venv",
    "/Users/me/ab/venv/x",
];

#[test]
fn scanned_path_rules_agree_with_std_paths() {
    for home in HOMES {
        for p in PATHS {
            assert_eq!(
                validate_path(p, home, &pretend_markers(p)),
                std_scanned(Path::new(p), Path::new(home)),
                "path {:?} home {:?}",
                p,
                home
            );
        }
    }
}

#[test]
fn user_path_rules_agree_with_std_paths() {
    for home in HOMES {
        for p in PATHS {
            assert_eq!(
                validate_user_path(p, home),
                std_user(Path::new(p), Path::new(home)),
                "path {:?} home {:?}",
                p,
                home
            );
        }
    }
}

#[test]
fn project_dir_rule_agrees_with_std_paths() {
    for p in PATHS {
        assert_eq!(contains_safe_project_dir(p, &pretend_markers(p)), std_project_dir(Path::new(p)), "path {:?}", p);
    }
}
