//! Which paths may be deleted: only paths strictly inside the home directory,
//! and, for scanned items, only those in a known-safe location.

use vstd::prelude::*;
use crate::path::{
    joined, lemma_joined_components, lemma_plain_relative_has_components,
    lemma_single_name_components, plain_relative, components_of, components_equal, path_components,
    path_starts_with, relative_components, is_normal_named_any, same_path, starts_with_any_at, starts_with_at, views,
    Component, PathComponent,
};

verus! {

/// Why a path may not be deleted.
#[derive(Clone, Copy, Debug, PartialEq, Eq, Structural)]
pub enum DeletionRefusal {
    /// The path is not inside the home directory.
    OutsideHome,
    /// The path is the home directory itself.
    HomeItself,
    /// The path matches no known safe location.
    NotAllowlisted,
    /// The path is one of the top-level home folders that are never deleted whole.
    ProtectedTopLevel,
}

impl DeletionRefusal {
    /// The sentence that explains this refusal.
    pub fn describe(&self) -> (r: &'static str)
        ensures
            r@ == refusal_text(*self),
    {
        match self {
            DeletionRefusal::OutsideHome => "Refusing to delete path outside home directory",
            DeletionRefusal::HomeItself => "Refusing to delete the home directory",
            DeletionRefusal::NotAllowlisted => "Path does not match any known safe deletion pattern",
            DeletionRefusal::ProtectedTopLevel => "Refusing to delete protected top-level folder",
        }
    }
}

pub open spec fn refusal_text(r: DeletionRefusal) -> Seq<char> {
    match r {
        DeletionRefusal::OutsideHome => "Refusing to delete path outside home directory"@,
        DeletionRefusal::HomeItself => "Refusing to delete the home directory"@,
        DeletionRefusal::NotAllowlisted => "Path does not match any known safe deletion pattern"@,
        DeletionRefusal::ProtectedTopLevel => "Refusing to delete protected top-level folder"@,
    }
}

/// Locations, relative to the home directory, under which anything may be deleted.
pub open spec fn safe_patterns() -> Seq<&'static str> {
    seq![
        "Library/Caches",
        "Library/Developer/CoreSimulator",
        "Library/Developer/Xcode/DerivedData",
        "Library/Application Support/Code/Cache",
        "Library/Application Support/Code/CachedData",
        "Library/Application Support/Code/CachedExtensionVSIXs",
        "Library/Application Support/Cursor/Cache",
        "Library/Application Support/Cursor/CachedData",
        "Library/pnpm",
        ".npm",
        ".yarn",
        ".pnpm-store",
        ".expo",
        ".cargo/registry",
        ".cargo/git",
        ".cache/pip",
        ".conda/pkgs",
        ".mypy_cache",
        ".ruff_cache",
        "miniconda3/pkgs",
        "anaconda3/pkgs",
        "go/pkg",
        ".cache/go-build",
        ".m2/repository",
        ".gradle",
        ".gem",
        ".bundle/cache",
        ".nuget",
        ".dotnet",
        ".local/share/NuGet",
        ".pub-cache",
        ".dartServer",
        ".cocoapods",
        ".composer/cache",
        "Library/Logs",
        "Library/Developer/Xcode/iOS DeviceSupport",
        "Library/Developer/Xcode/watchOS DeviceSupport",
        "Library/Developer/Xcode/tvOS DeviceSupport",
        "Library/Developer/Xcode/Archives",
        "Library/Application Support/MobileSync/Backup",
    ]
}

fn safe_pattern_list() -> (v: Vec<&'static str>)
    ensures
        v@ == safe_patterns(),
{
    let v = vec![
        "Library/Caches",
        "Library/Developer/CoreSimulator",
        "Library/Developer/Xcode/DerivedData",
        "Library/Application Support/Code/Cache",
        "Library/Application Support/Code/CachedData",
        "Library/Application Support/Code/CachedExtensionVSIXs",
        "Library/Application Support/Cursor/Cache",
        "Library/Application Support/Cursor/CachedData",
        "Library/pnpm",
        ".npm",
        ".yarn",
        ".pnpm-store",
        ".expo",
        ".cargo/registry",
        ".cargo/git",
        ".cache/pip",
        ".conda/pkgs",
        ".mypy_cache",
        ".ruff_cache",
        "miniconda3/pkgs",
        "anaconda3/pkgs",
        "go/pkg",
        ".cache/go-build",
        ".m2/repository",
        ".gradle",
        ".gem",
        ".bundle/cache",
        ".nuget",
        ".dotnet",
        ".local/share/NuGet",
        ".pub-cache",
        ".dartServer",
        ".cocoapods",
        ".composer/cache",
        "Library/Logs",
        "Library/Developer/Xcode/iOS DeviceSupport",
        "Library/Developer/Xcode/watchOS DeviceSupport",
        "Library/Developer/Xcode/tvOS DeviceSupport",
        "Library/Developer/Xcode/Archives",
        "Library/Application Support/MobileSync/Backup",
    ];
    assert(v@ =~= safe_patterns());
    v
}

/// Directory names that mark regenerable project contents wherever they occur.
pub open spec fn safe_project_dirs() -> Seq<&'static str> {
    seq!["node_modules", ".venv", ".tox", "__pycache__"]
}

fn safe_project_dir_list() -> (v: Vec<&'static str>)
    ensures
        v@ == safe_project_dirs(),
{
    let v = vec!["node_modules", ".venv", ".tox", "__pycache__"];
    assert(v@ =~= safe_project_dirs());
    v
}

/// What the disk shows around each component of a path (entry `i` is about
/// component `i`): whether the directory holding it has a `Cargo.toml`, and
/// whether the component is a directory holding a `pyvenv.cfg`.
pub struct ProjectMarkers {
    pub cargo_manifest_beside: Vec<bool>,
    pub pyvenv_cfg_inside: Vec<bool>,
}

/// The flag for component `i`: false where `flags` says nothing.
pub open spec fn marked(flags: Seq<bool>, i: int) -> bool {
    0 <= i < flags.len() && flags[i]
}

/// Component `i` of `comps` is a regenerable project directory: one of the
/// names that always are, a `target` folder beside a `Cargo.toml`, or a
/// `venv` folder holding a `pyvenv.cfg`.
pub open spec fn project_dir_at(comps: Seq<Component>, i: int, markers: ProjectMarkers) -> bool {
    ||| exists|j: int|
        0 <= j < safe_project_dirs().len() && comps[i] == Component::Normal(
            #[trigger] safe_project_dirs()[j]@,
        )
    ||| comps[i] == Component::Normal("target"@) && marked(markers.cargo_manifest_beside@, i)
    ||| comps[i] == Component::Normal("venv"@) && marked(markers.pyvenv_cfg_inside@, i)
}

/// Top-level home folders that are never deleted whole.
pub open spec fn protected_toplevel() -> Seq<&'static str> {
    seq![
        "Library",
        "Documents",
        "Downloads",
        "Desktop",
        "Movies",
        "Music",
        "Pictures",
        "Public",
        "Applications",
    ]
}

fn protected_toplevel_list() -> (v: Vec<&'static str>)
    ensures
        v@ == protected_toplevel(),
{
    let v = vec![
        "Library",
        "Documents",
        "Downloads",
        "Desktop",
        "Movies",
        "Music",
        "Pictures",
        "Public",
        "Applications",
    ];
    assert(v@ =~= protected_toplevel());
    v
}

/// Some component of `path` is a regenerable project directory.
pub open spec fn has_safe_project_dir(path: Seq<char>, markers: ProjectMarkers) -> bool {
    exists|i: int|
        0 <= i < path_components(path).len() && #[trigger] project_dir_at(
            path_components(path),
            i,
            markers,
        )
}

/// The part of `path` below `home` starts with one of the safe patterns.
pub open spec fn under_safe_pattern(path: Seq<char>, home: Seq<char>) -> bool {
    exists|j: int|
        0 <= j < safe_patterns().len() && path_components(
            #[trigger] safe_patterns()[j]@,
        ).is_prefix_of(relative_components(path, home))
}

/// The verdict on deleting a scanned item at the resolved path `canonical`.
pub open spec fn scanned_path_verdict(canonical: Seq<char>, home: Seq<char>, markers: ProjectMarkers) -> Result<(), DeletionRefusal> {
    if !path_starts_with(canonical, home) {
        Err(DeletionRefusal::OutsideHome)
    } else if same_path(canonical, home) {
        Err(DeletionRefusal::HomeItself)
    } else if !(under_safe_pattern(canonical, home) || has_safe_project_dir(canonical, markers)) {
        Err(DeletionRefusal::NotAllowlisted)
    } else {
        Ok(())
    }
}

/// The single component below `home`, when it names a protected top-level folder.
pub open spec fn is_protected_toplevel(path: Seq<char>, home: Seq<char>) -> bool {
    let rel = relative_components(path, home);
    rel.len() == 1 && exists|j: int|
        0 <= j < protected_toplevel().len() && rel[0] == Component::Normal(
            #[trigger] protected_toplevel()[j]@,
        )
}

/// The verdict on deleting a path the user picked, resolved to `canonical`.
pub open spec fn user_path_verdict(canonical: Seq<char>, home: Seq<char>) -> Result<(), DeletionRefusal> {
    if !path_starts_with(canonical, home) {
        Err(DeletionRefusal::OutsideHome)
    } else if same_path(canonical, home) {
        Err(DeletionRefusal::HomeItself)
    } else if is_protected_toplevel(canonical, home) {
        Err(DeletionRefusal::ProtectedTopLevel)
    } else {
        Ok(())
    }
}

fn project_dir_in(comps: &Vec<PathComponent>, markers: &ProjectMarkers) -> (r: bool)
    ensures
        r == exists|i: int| 0 <= i < comps.len() && #[trigger] project_dir_at(views(comps@), i, *markers),
{
    let names = safe_project_dir_list();
    let target = vec!["target"];
    let venv = vec!["venv"];
    assert(target@[0]@ == "target"@);
    assert(venv@[0]@ == "venv"@);
    let mut i: usize = 0;
    while i < comps.len()
        invariant
            i <= comps.len(),
            names@ == safe_project_dirs(),
            target@ == seq!["target"],
            venv@ == seq!["venv"],
            forall|k: int| 0 <= k < i ==> !#[trigger] project_dir_at(views(comps@), k, *markers),
        decreases comps.len() - i,
    {
        let c = &comps[i];
        assert(views(comps@)[i as int] == c@);
        let always = is_normal_named_any(c, &names);
        let cargo = i < markers.cargo_manifest_beside.len() && markers.cargo_manifest_beside[i];
        let pyvenv = i < markers.pyvenv_cfg_inside.len() && markers.pyvenv_cfg_inside[i];
        let is_target = is_normal_named_any(c, &target);
        let is_venv = is_normal_named_any(c, &venv);
        proof {
            if c@ == Component::Normal("target"@) {
                assert(c@ == Component::Normal(target@[0]@));
            }
            if c@ == Component::Normal("venv"@) {
                assert(c@ == Component::Normal(venv@[0]@));
            }
            if is_target {
                let j = choose|j: int| 0 <= j < target.len() && c@ == Component::Normal(#[trigger] target@[j]@);
                assert(j == 0);
            }
            if is_venv {
                let j = choose|j: int| 0 <= j < venv.len() && c@ == Component::Normal(#[trigger] venv@[j]@);
                assert(j == 0);
            }
        }
        if always || (is_target && cargo) || (is_venv && pyvenv) {
            assert(project_dir_at(views(comps@), i as int, *markers));
            return true;
        }
        i = i + 1;
    }
    false
}

/// Whether some component of `path` is a regenerable project directory:
/// `node_modules`, `.venv`, `.tox` or `__pycache__` anywhere, a `target`
/// folder beside a `Cargo.toml`, or a `venv` folder holding a `pyvenv.cfg`
/// (as `markers` reports, one entry per component of `path`).
pub fn contains_safe_project_dir(path: &str, markers: &ProjectMarkers) -> (r: bool)
    ensures
        r == has_safe_project_dir(path@, *markers),
{
    let comps = components_of(path);
    project_dir_in(&comps, markers)
}

/// Checks that a scanned item's resolved path `canonical` may be deleted: it
/// lies strictly inside `home`, and below a known safe location or inside a
/// regenerable project directory (`markers` reporting, per component of
/// `canonical`, the files that identify Cargo and virtual-environment folders).
pub fn validate_path(canonical: &str, home: &str, markers: &ProjectMarkers) -> (r: Result<(), DeletionRefusal>)
    ensures
        r == scanned_path_verdict(canonical@, home@, *markers),
{
    let comps = components_of(canonical);
    let home_comps = components_of(home);
    if !starts_with_at(&comps, 0, &home_comps) {
        assert(views(comps@).skip(0) =~= views(comps@));
        return Err(DeletionRefusal::OutsideHome);
    }
    assert(views(comps@).skip(0) =~= views(comps@));
    if components_equal(&comps, &home_comps) {
        return Err(DeletionRefusal::HomeItself);
    }
    let patterns = safe_pattern_list();
    let below_pattern = starts_with_any_at(&comps, home_comps.len(), &patterns);
    let in_project = project_dir_in(&comps, markers);
    if !(below_pattern || in_project) {
        return Err(DeletionRefusal::NotAllowlisted);
    }
    Ok(())
}

/// Checks that a path the user picked, resolved to `canonical`, may be deleted:
/// it lies strictly inside `home` and is not one of the protected top-level folders.
#[verifier::spinoff_prover]
pub fn validate_user_path(canonical: &str, home: &str) -> (r: Result<(), DeletionRefusal>)
    ensures
        r == user_path_verdict(canonical@, home@),
{
    let comps = components_of(canonical);
    let home_comps = components_of(home);
    assert(views(comps@).skip(0) =~= views(comps@));
    if !starts_with_at(&comps, 0, &home_comps) {
        return Err(DeletionRefusal::OutsideHome);
    }
    if components_equal(&comps, &home_comps) {
        return Err(DeletionRefusal::HomeItself);
    }
    let ghost rel = relative_components(canonical@, home@);
    if comps.len() - home_comps.len() == 1 {
        let last = &comps[home_comps.len()];
        assert(rel[0] == last@);
        let names = protected_toplevel_list();
        if is_normal_named_any(last, &names) {
            return Err(DeletionRefusal::ProtectedTopLevel);
        }
    }
    Ok(())
}

/// The home directory itself is never deleted, whether found by a scan or
/// picked by the user.
pub proof fn lemma_home_never_deleted(home: Seq<char>, markers: ProjectMarkers)
    ensures
        scanned_path_verdict(home, home, markers) == Err::<(), DeletionRefusal>(DeletionRefusal::HomeItself),
        user_path_verdict(home, home) == Err::<(), DeletionRefusal>(DeletionRefusal::HomeItself),
{
    let c = path_components(home);
    assert(c =~= c.subrange(0, c.len() as int));
}

/// A path that may be deleted lies strictly inside the home directory: the
/// home directory's components come first in it, followed by at least one more.
pub proof fn lemma_deletable_inside_home(canonical: Seq<char>, home: Seq<char>, markers: ProjectMarkers)
    requires
        scanned_path_verdict(canonical, home, markers) is Ok || user_path_verdict(canonical, home) is Ok,
    ensures
        path_components(home).is_prefix_of(path_components(canonical)),
        path_components(canonical).len() > path_components(home).len(),
        relative_components(canonical, home).len() > 0,
{
    let c = path_components(canonical);
    let h = path_components(home);
    if c.len() == h.len() {
        assert(c =~= h);
    }
}

/// A scanned item's path that may be deleted lies below a known safe location
/// or inside a regenerable project directory; a `target` or `venv` folder
/// counts only when the disk shows its identifying file.
pub proof fn lemma_scanned_deletable_allowlisted(canonical: Seq<char>, home: Seq<char>, markers: ProjectMarkers)
    requires
        scanned_path_verdict(canonical, home, markers) is Ok,
    ensures
        under_safe_pattern(canonical, home) || has_safe_project_dir(canonical, markers),
{
}

/// The components of `rel` begin with those of `location`.
pub open spec fn begins_with_location(rel: Seq<char>, location: Seq<char>) -> bool {
    path_components(location).is_prefix_of(path_components(rel))
}

proof fn lemma_strictly_below_home(home: Seq<char>, rel: Seq<char>)
    requires
        plain_relative(rel),
    ensures
        path_starts_with(joined(home, rel), home),
        !same_path(joined(home, rel), home),
        relative_components(joined(home, rel), home) == path_components(rel),
{
    lemma_joined_components(home, rel);
    lemma_plain_relative_has_components(rel);
    let hc = path_components(home);
    let all = path_components(joined(home, rel));
    assert(hc =~= all.subrange(0, hc.len() as int));
    assert(relative_components(joined(home, rel), home) =~= path_components(rel));
    assert(all.len() > hc.len());
}

/// Anything below the home directory that lies in one of the known safe
/// locations (each written out here) may be deleted, whatever the disk shows
/// about project folders; e.g. `<home>/.gradle/caches`.
pub proof fn lemma_allowlisted_locations_deletable(home: Seq<char>, rel: Seq<char>, markers: ProjectMarkers)
    requires
        plain_relative(rel),
        begins_with_location(rel, "Library/Caches"@)
        || begins_with_location(rel, "Library/Developer/CoreSimulator"@)
        || begins_with_location(rel, "Library/Developer/Xcode/DerivedData"@)
        || begins_with_location(rel, "Library/Application Support/Code/Cache"@)
        || begins_with_location(rel, "Library/Application Support/Code/CachedData"@)
        || begins_with_location(rel, "Library/Application Support/Code/CachedExtensionVSIXs"@)
        || begins_with_location(rel, "Library/Application Support/Cursor/Cache"@)
        || begins_with_location(rel, "Library/Application Support/Cursor/CachedData"@)
        || begins_with_location(rel, "Library/pnpm"@)
        || begins_with_location(rel, ".npm"@)
        || begins_with_location(rel, ".yarn"@)
        || begins_with_location(rel, ".pnpm-store"@)
        || begins_with_location(rel, ".expo"@)
        || begins_with_location(rel, ".cargo/registry"@)
        || begins_with_location(rel, ".cargo/git"@)
        || begins_with_location(rel, ".cache/pip"@)
        || begins_with_location(rel, ".conda/pkgs"@)
        || begins_with_location(rel, ".mypy_cache"@)
        || begins_with_location(rel, ".ruff_cache"@)
        || begins_with_location(rel, "miniconda3/pkgs"@)
        || begins_with_location(rel, "anaconda3/pkgs"@)
        || begins_with_location(rel, "go/pkg"@)
        || begins_with_location(rel, ".cache/go-build"@)
        || begins_with_location(rel, ".m2/repository"@)
        || begins_with_location(rel, ".gradle"@)
        || begins_with_location(rel, ".gem"@)
        || begins_with_location(rel, ".bundle/cache"@)
        || begins_with_location(rel, ".nuget"@)
        || begins_with_location(rel, ".dotnet"@)
        || begins_with_location(rel, ".local/share/NuGet"@)
        || begins_with_location(rel, ".pub-cache"@)
        || begins_with_location(rel, ".dartServer"@)
        || begins_with_location(rel, ".cocoapods"@)
        || begins_with_location(rel, ".composer/cache"@)
        || begins_with_location(rel, "Library/Logs"@)
        || begins_with_location(rel, "Library/Developer/Xcode/iOS DeviceSupport"@)
        || begins_with_location(rel, "Library/Developer/Xcode/watchOS DeviceSupport"@)
        || begins_with_location(rel, "Library/Developer/Xcode/tvOS DeviceSupport"@)
        || begins_with_location(rel, "Library/Developer/Xcode/Archives"@)
        || begins_with_location(rel, "Library/Application Support/MobileSync/Backup"@),
    ensures
        scanned_path_verdict(joined(home, rel), home, markers) == Ok::<(), DeletionRefusal>(()),
{
    lemma_strictly_below_home(home, rel);
    if begins_with_location(rel, "Library/Caches"@) {
        assert(safe_patterns()[0]@ == "Library/Caches"@);
    }
    else if begins_with_location(rel, "Library/Developer/CoreSimulator"@) {
        assert(safe_patterns()[1]@ == "Library/Developer/CoreSimulator"@);
    }
    else if begins_with_location(rel, "Library/Developer/Xcode/DerivedData"@) {
        assert(safe_patterns()[2]@ == "Library/Developer/Xcode/DerivedData"@);
    }
    else if begins_with_location(rel, "Library/Application Support/Code/Cache"@) {
        assert(safe_patterns()[3]@ == "Library/Application Support/Code/Cache"@);
    }
    else if begins_with_location(rel, "Library/Application Support/Code/CachedData"@) {
        assert(safe_patterns()[4]@ == "Library/Application Support/Code/CachedData"@);
    }
    else if begins_with_location(rel, "Library/Application Support/Code/CachedExtensionVSIXs"@) {
        assert(safe_patterns()[5]@ == "Library/Application Support/Code/CachedExtensionVSIXs"@);
    }
    else if begins_with_location(rel, "Library/Application Support/Cursor/Cache"@) {
        assert(safe_patterns()[6]@ == "Library/Application Support/Cursor/Cache"@);
    }
    else if begins_with_location(rel, "Library/Application Support/Cursor/CachedData"@) {
        assert(safe_patterns()[7]@ == "Library/Application Support/Cursor/CachedData"@);
    }
    else if begins_with_location(rel, "Library/pnpm"@) {
        assert(safe_patterns()[8]@ == "Library/pnpm"@);
    }
    else if begins_with_location(rel, ".npm"@) {
        assert(safe_patterns()[9]@ == ".npm"@);
    }
    else if begins_with_location(rel, ".yarn"@) {
        assert(safe_patterns()[10]@ == ".yarn"@);
    }
    else if begins_with_location(rel, ".pnpm-store"@) {
        assert(safe_patterns()[11]@ == ".pnpm-store"@);
    }
    else if begins_with_location(rel, ".expo"@) {
        assert(safe_patterns()[12]@ == ".expo"@);
    }
    else if begins_with_location(rel, ".cargo/registry"@) {
        assert(safe_patterns()[13]@ == ".cargo/registry"@);
    }
    else if begins_with_location(rel, ".cargo/git"@) {
        assert(safe_patterns()[14]@ == ".cargo/git"@);
    }
    else if begins_with_location(rel, ".cache/pip"@) {
        assert(safe_patterns()[15]@ == ".cache/pip"@);
    }
    else if begins_with_location(rel, ".conda/pkgs"@) {
        assert(safe_patterns()[16]@ == ".conda/pkgs"@);
    }
    else if begins_with_location(rel, ".mypy_cache"@) {
        assert(safe_patterns()[17]@ == ".mypy_cache"@);
    }
    else if begins_with_location(rel, ".ruff_cache"@) {
        assert(safe_patterns()[18]@ == ".ruff_cache"@);
    }
    else if begins_with_location(rel, "miniconda3/pkgs"@) {
        assert(safe_patterns()[19]@ == "miniconda3/pkgs"@);
    }
    else if begins_with_location(rel, "anaconda3/pkgs"@) {
        assert(safe_patterns()[20]@ == "anaconda3/pkgs"@);
    }
    else if begins_with_location(rel, "go/pkg"@) {
        assert(safe_patterns()[21]@ == "go/pkg"@);
    }
    else if begins_with_location(rel, ".cache/go-build"@) {
        assert(safe_patterns()[22]@ == ".cache/go-build"@);
    }
    else if begins_with_location(rel, ".m2/repository"@) {
        assert(safe_patterns()[23]@ == ".m2/repository"@);
    }
    else if begins_with_location(rel, ".gradle"@) {
        assert(safe_patterns()[24]@ == ".gradle"@);
    }
    else if begins_with_location(rel, ".gem"@) {
        assert(safe_patterns()[25]@ == ".gem"@);
    }
    else if begins_with_location(rel, ".bundle/cache"@) {
        assert(safe_patterns()[26]@ == ".bundle/cache"@);
    }
    else if begins_with_location(rel, ".nuget"@) {
        assert(safe_patterns()[27]@ == ".nuget"@);
    }
    else if begins_with_location(rel, ".dotnet"@) {
        assert(safe_patterns()[28]@ == ".dotnet"@);
    }
    else if begins_with_location(rel, ".local/share/NuGet"@) {
        assert(safe_patterns()[29]@ == ".local/share/NuGet"@);
    }
    else if begins_with_location(rel, ".pub-cache"@) {
        assert(safe_patterns()[30]@ == ".pub-cache"@);
    }
    else if begins_with_location(rel, ".dartServer"@) {
        assert(safe_patterns()[31]@ == ".dartServer"@);
    }
    else if begins_with_location(rel, ".cocoapods"@) {
        assert(safe_patterns()[32]@ == ".cocoapods"@);
    }
    else if begins_with_location(rel, ".composer/cache"@) {
        assert(safe_patterns()[33]@ == ".composer/cache"@);
    }
    else if begins_with_location(rel, "Library/Logs"@) {
        assert(safe_patterns()[34]@ == "Library/Logs"@);
    }
    else if begins_with_location(rel, "Library/Developer/Xcode/iOS DeviceSupport"@) {
        assert(safe_patterns()[35]@ == "Library/Developer/Xcode/iOS DeviceSupport"@);
    }
    else if begins_with_location(rel, "Library/Developer/Xcode/watchOS DeviceSupport"@) {
        assert(safe_patterns()[36]@ == "Library/Developer/Xcode/watchOS DeviceSupport"@);
    }
    else if begins_with_location(rel, "Library/Developer/Xcode/tvOS DeviceSupport"@) {
        assert(safe_patterns()[37]@ == "Library/Developer/Xcode/tvOS DeviceSupport"@);
    }
    else if begins_with_location(rel, "Library/Developer/Xcode/Archives"@) {
        assert(safe_patterns()[38]@ == "Library/Developer/Xcode/Archives"@);
    }
    else if begins_with_location(rel, "Library/Application Support/MobileSync/Backup"@) {
        assert(safe_patterns()[39]@ == "Library/Application Support/MobileSync/Backup"@);
    }
}

/// A path below the home directory that lies in none of the known safe
/// locations (each written out here) and has no project folder among its
/// components is refused as not allowlisted.
pub proof fn lemma_unlisted_paths_refused(home: Seq<char>, rel: Seq<char>, markers: ProjectMarkers)
    requires
        plain_relative(rel),
        !begins_with_location(rel, "Library/Caches"@),
        !begins_with_location(rel, "Library/Developer/CoreSimulator"@),
        !begins_with_location(rel, "Library/Developer/Xcode/DerivedData"@),
        !begins_with_location(rel, "Library/Application Support/Code/Cache"@),
        !begins_with_location(rel, "Library/Application Support/Code/CachedData"@),
        !begins_with_location(rel, "Library/Application Support/Code/CachedExtensionVSIXs"@),
        !begins_with_location(rel, "Library/Application Support/Cursor/Cache"@),
        !begins_with_location(rel, "Library/Application Support/Cursor/CachedData"@),
        !begins_with_location(rel, "Library/pnpm"@),
        !begins_with_location(rel, ".npm"@),
        !begins_with_location(rel, ".yarn"@),
        !begins_with_location(rel, ".pnpm-store"@),
        !begins_with_location(rel, ".expo"@),
        !begins_with_location(rel, ".cargo/registry"@),
        !begins_with_location(rel, ".cargo/git"@),
        !begins_with_location(rel, ".cache/pip"@),
        !begins_with_location(rel, ".conda/pkgs"@),
        !begins_with_location(rel, ".mypy_cache"@),
        !begins_with_location(rel, ".ruff_cache"@),
        !begins_with_location(rel, "miniconda3/pkgs"@),
        !begins_with_location(rel, "anaconda3/pkgs"@),
        !begins_with_location(rel, "go/pkg"@),
        !begins_with_location(rel, ".cache/go-build"@),
        !begins_with_location(rel, ".m2/repository"@),
        !begins_with_location(rel, ".gradle"@),
        !begins_with_location(rel, ".gem"@),
        !begins_with_location(rel, ".bundle/cache"@),
        !begins_with_location(rel, ".nuget"@),
        !begins_with_location(rel, ".dotnet"@),
        !begins_with_location(rel, ".local/share/NuGet"@),
        !begins_with_location(rel, ".pub-cache"@),
        !begins_with_location(rel, ".dartServer"@),
        !begins_with_location(rel, ".cocoapods"@),
        !begins_with_location(rel, ".composer/cache"@),
        !begins_with_location(rel, "Library/Logs"@),
        !begins_with_location(rel, "Library/Developer/Xcode/iOS DeviceSupport"@),
        !begins_with_location(rel, "Library/Developer/Xcode/watchOS DeviceSupport"@),
        !begins_with_location(rel, "Library/Developer/Xcode/tvOS DeviceSupport"@),
        !begins_with_location(rel, "Library/Developer/Xcode/Archives"@),
        !begins_with_location(rel, "Library/Application Support/MobileSync/Backup"@),
        forall|i: int|
            0 <= i < path_components(joined(home, rel)).len() ==> {
                let c = #[trigger] path_components(joined(home, rel))[i];
                c != Component::Normal("node_modules"@) && c != Component::Normal(".venv"@) && c != Component::Normal(".tox"@) && c != Component::Normal("__pycache__"@) && c != Component::Normal("target"@) && c != Component::Normal("venv"@)
            },
    ensures
        scanned_path_verdict(joined(home, rel), home, markers) == Err::<(), DeletionRefusal>(
            DeletionRefusal::NotAllowlisted,
        ),
{
    lemma_strictly_below_home(home, rel);
    assert forall|j: int| 0 <= j < safe_patterns().len() implies !path_components(
        #[trigger] safe_patterns()[j]@,
    ).is_prefix_of(path_components(rel)) by {
        if j == 0 {
            assert(safe_patterns()[j]@ == "Library/Caches"@);
        }
        else if j == 1 {
            assert(safe_patterns()[j]@ == "Library/Developer/CoreSimulator"@);
        }
        else if j == 2 {
            assert(safe_patterns()[j]@ == "Library/Developer/Xcode/DerivedData"@);
        }
        else if j == 3 {
            assert(safe_patterns()[j]@ == "Library/Application Support/Code/Cache"@);
        }
        else if j == 4 {
            assert(safe_patterns()[j]@ == "Library/Application Support/Code/CachedData"@);
        }
        else if j == 5 {
            assert(safe_patterns()[j]@ == "Library/Application Support/Code/CachedExtensionVSIXs"@);
        }
        else if j == 6 {
            assert(safe_patterns()[j]@ == "Library/Application Support/Cursor/Cache"@);
        }
        else if j == 7 {
            assert(safe_patterns()[j]@ == "Library/Application Support/Cursor/CachedData"@);
        }
        else if j == 8 {
            assert(safe_patterns()[j]@ == "Library/pnpm"@);
        }
        else if j == 9 {
            assert(safe_patterns()[j]@ == ".npm"@);
        }
        else if j == 10 {
            assert(safe_patterns()[j]@ == ".yarn"@);
        }
        else if j == 11 {
            assert(safe_patterns()[j]@ == ".pnpm-store"@);
        }
        else if j == 12 {
            assert(safe_patterns()[j]@ == ".expo"@);
        }
        else if j == 13 {
            assert(safe_patterns()[j]@ == ".cargo/registry"@);
        }
        else if j == 14 {
            assert(safe_patterns()[j]@ == ".cargo/git"@);
        }
        else if j == 15 {
            assert(safe_patterns()[j]@ == ".cache/pip"@);
        }
        else if j == 16 {
            assert(safe_patterns()[j]@ == ".conda/pkgs"@);
        }
        else if j == 17 {
            assert(safe_patterns()[j]@ == ".mypy_cache"@);
        }
        else if j == 18 {
            assert(safe_patterns()[j]@ == ".ruff_cache"@);
        }
        else if j == 19 {
            assert(safe_patterns()[j]@ == "miniconda3/pkgs"@);
        }
        else if j == 20 {
            assert(safe_patterns()[j]@ == "anaconda3/pkgs"@);
        }
        else if j == 21 {
            assert(safe_patterns()[j]@ == "go/pkg"@);
        }
        else if j == 22 {
            assert(safe_patterns()[j]@ == ".cache/go-build"@);
        }
        else if j == 23 {
            assert(safe_patterns()[j]@ == ".m2/repository"@);
        }
        else if j == 24 {
            assert(safe_patterns()[j]@ == ".gradle"@);
        }
        else if j == 25 {
            assert(safe_patterns()[j]@ == ".gem"@);
        }
        else if j == 26 {
            assert(safe_patterns()[j]@ == ".bundle/cache"@);
        }
        else if j == 27 {
            assert(safe_patterns()[j]@ == ".nuget"@);
        }
        else if j == 28 {
            assert(safe_patterns()[j]@ == ".dotnet"@);
        }
        else if j == 29 {
            assert(safe_patterns()[j]@ == ".local/share/NuGet"@);
        }
        else if j == 30 {
            assert(safe_patterns()[j]@ == ".pub-cache"@);
        }
        else if j == 31 {
            assert(safe_patterns()[j]@ == ".dartServer"@);
        }
        else if j == 32 {
            assert(safe_patterns()[j]@ == ".cocoapods"@);
        }
        else if j == 33 {
            assert(safe_patterns()[j]@ == ".composer/cache"@);
        }
        else if j == 34 {
            assert(safe_patterns()[j]@ == "Library/Logs"@);
        }
        else if j == 35 {
            assert(safe_patterns()[j]@ == "Library/Developer/Xcode/iOS DeviceSupport"@);
        }
        else if j == 36 {
            assert(safe_patterns()[j]@ == "Library/Developer/Xcode/watchOS DeviceSupport"@);
        }
        else if j == 37 {
            assert(safe_patterns()[j]@ == "Library/Developer/Xcode/tvOS DeviceSupport"@);
        }
        else if j == 38 {
            assert(safe_patterns()[j]@ == "Library/Developer/Xcode/Archives"@);
        }
        else if j == 39 {
            assert(safe_patterns()[j]@ == "Library/Application Support/MobileSync/Backup"@);
        }
    }
    let comps = path_components(joined(home, rel));
    assert forall|i: int| 0 <= i < comps.len() implies !#[trigger] project_dir_at(comps, i, markers) by {
        assert forall|j: int| 0 <= j < safe_project_dirs().len() implies comps[i] != Component::Normal(
            #[trigger] safe_project_dirs()[j]@,
        ) by {
            if j == 0 {
                assert(safe_project_dirs()[j]@ == "node_modules"@);
            }
            else if j == 1 {
                assert(safe_project_dirs()[j]@ == ".venv"@);
            }
            else if j == 2 {
                assert(safe_project_dirs()[j]@ == ".tox"@);
            }
            else if j == 3 {
                assert(safe_project_dirs()[j]@ == "__pycache__"@);
            }
        }
    }
}

/// A user path that is the home directory followed by one of the protected
/// top-level folders (each written out here) is refused.
pub proof fn lemma_protected_folders_refused(home: Seq<char>, name: Seq<char>)
    requires
        name == "Library"@
        || name == "Documents"@
        || name == "Downloads"@
        || name == "Desktop"@
        || name == "Movies"@
        || name == "Music"@
        || name == "Pictures"@
        || name == "Public"@
        || name == "Applications"@,
    ensures
        user_path_verdict(joined(home, name), home) == Err::<(), DeletionRefusal>(
            DeletionRefusal::ProtectedTopLevel,
        ),
{
    reveal_strlit("Library");
    reveal_strlit("Documents");
    reveal_strlit("Downloads");
    reveal_strlit("Desktop");
    reveal_strlit("Movies");
    reveal_strlit("Music");
    reveal_strlit("Pictures");
    reveal_strlit("Public");
    reveal_strlit("Applications");
    lemma_single_name_components(name);
    lemma_strictly_below_home(home, name);
    if name == "Library"@ {
        assert(protected_toplevel()[0]@ == "Library"@);
    }
    else if name == "Documents"@ {
        assert(protected_toplevel()[1]@ == "Documents"@);
    }
    else if name == "Downloads"@ {
        assert(protected_toplevel()[2]@ == "Downloads"@);
    }
    else if name == "Desktop"@ {
        assert(protected_toplevel()[3]@ == "Desktop"@);
    }
    else if name == "Movies"@ {
        assert(protected_toplevel()[4]@ == "Movies"@);
    }
    else if name == "Music"@ {
        assert(protected_toplevel()[5]@ == "Music"@);
    }
    else if name == "Pictures"@ {
        assert(protected_toplevel()[6]@ == "Pictures"@);
    }
    else if name == "Public"@ {
        assert(protected_toplevel()[7]@ == "Public"@);
    }
    else if name == "Applications"@ {
        assert(protected_toplevel()[8]@ == "Applications"@);
    }
}

/// A user path that is the home directory followed by one other folder name
/// (not `.`, not `..`, without `/`) is not refused.
pub proof fn lemma_other_top_level_names_allowed(home: Seq<char>, name: Seq<char>)
    requires
        name.len() > 0,
        forall|i: int| 0 <= i < name.len() ==> name[i] != '/',
        name != seq!['.'],
        name != seq!['.', '.'],
        name != "Library"@,
        name != "Documents"@,
        name != "Downloads"@,
        name != "Desktop"@,
        name != "Movies"@,
        name != "Music"@,
        name != "Pictures"@,
        name != "Public"@,
        name != "Applications"@,
    ensures
        user_path_verdict(joined(home, name), home) == Ok::<(), DeletionRefusal>(()),
{
    lemma_single_name_components(name);
    lemma_strictly_below_home(home, name);
    assert forall|j: int| 0 <= j < protected_toplevel().len() implies relative_components(
        joined(home, name),
        home,
    )[0] != Component::Normal(#[trigger] protected_toplevel()[j]@) by {
        if j == 0 {
            assert(protected_toplevel()[j]@ == "Library"@);
        }
        else if j == 1 {
            assert(protected_toplevel()[j]@ == "Documents"@);
        }
        else if j == 2 {
            assert(protected_toplevel()[j]@ == "Downloads"@);
        }
        else if j == 3 {
            assert(protected_toplevel()[j]@ == "Desktop"@);
        }
        else if j == 4 {
            assert(protected_toplevel()[j]@ == "Movies"@);
        }
        else if j == 5 {
            assert(protected_toplevel()[j]@ == "Music"@);
        }
        else if j == 6 {
            assert(protected_toplevel()[j]@ == "Pictures"@);
        }
        else if j == 7 {
            assert(protected_toplevel()[j]@ == "Public"@);
        }
        else if j == 8 {
            assert(protected_toplevel()[j]@ == "Applications"@);
        }
    }
}

} // verus!