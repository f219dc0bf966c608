//! Re-checking, before cleanup, that a stored item's path is plausible for
//! its category, so that a tampered record cannot point a deletion elsewhere.

use vstd::prelude::*;
use crate::model::{removed_by_command, ScanCategory};
use crate::path::{
    joined, lemma_joined_components, plain_relative, components_of, contains_normal, has_normal_named, is_normal_named_any, path_components,
    path_starts_with, relative_components, starts_with_any_at, starts_with_at, views, Component,
};

verus! {

/// Locations, relative to the home directory, where items of a category live
/// (empty for categories recognised in another way, or not at all).
pub open spec fn category_prefixes(c: ScanCategory) -> Seq<&'static str> {
    match c {
        ScanCategory::NodeCaches => seq![
            ".npm",
            ".yarn",
            ".pnpm-store",
            "Library/Caches/Yarn",
            "Library/pnpm",
        ],
        ScanCategory::XcodeDerivedData => seq![
            "Library/Developer/Xcode/DerivedData",
        ],
        ScanCategory::GradleCache => seq![
            ".gradle",
        ],
        ScanCategory::SystemCaches => seq![
            "Library/Caches",
        ],
        ScanCategory::CargoCaches => seq![
            ".cargo/registry",
            ".cargo/git",
        ],
        ScanCategory::PythonCaches => seq![
            "Library/Caches/pip",
            ".cache/pip",
            ".conda/pkgs",
            "miniconda3/pkgs",
            "anaconda3/pkgs",
            ".mypy_cache",
            ".ruff_cache",
        ],
        ScanCategory::GoCache => seq![
            "go/pkg",
            "Library/Caches/go-build",
            ".cache/go-build",
        ],
        ScanCategory::MavenCache => seq![
            ".m2/repository",
        ],
        ScanCategory::RubyCache => seq![
            ".gem",
            ".bundle/cache",
            "Library/Caches/com.apple.rubygems",
        ],
        ScanCategory::DotnetCache => seq![
            ".nuget",
            ".dotnet",
            ".local/share/NuGet",
        ],
        ScanCategory::FlutterCache => seq![
            ".pub-cache",
            "Library/Caches/flutter",
            ".dartServer",
        ],
        ScanCategory::CocoaPodsCache => seq![
            "Library/Caches/CocoaPods",
            ".cocoapods",
        ],
        ScanCategory::ComposerCache => seq![
            ".composer/cache",
            "Library/Caches/composer",
        ],
        ScanCategory::IdeCaches => seq![
            "Library/Application Support/Code/",
            "Library/Application Support/Cursor/",
            "Library/Caches/JetBrains",
        ],
        ScanCategory::XcodeDeviceSupport => seq![
            "Library/Developer/Xcode/iOS DeviceSupport",
            "Library/Developer/Xcode/watchOS DeviceSupport",
            "Library/Developer/Xcode/tvOS DeviceSupport",
        ],
        ScanCategory::XcodeArchives => seq![
            "Library/Developer/Xcode/Archives",
        ],
        ScanCategory::BrowserCaches => seq![
            "Library/Caches/Google",
            "Library/Caches/com.apple.Safari",
            "Library/Caches/Firefox",
            "Library/Caches/Arc",
            "Library/Caches/com.brave.Browser",
            "Library/Caches/com.microsoft.edgemac",
            "Library/Caches/com.operasoftware.Opera",
            "Library/Caches/com.vivaldi.Vivaldi",
        ],
        ScanCategory::SystemLogs => seq![
            "Library/Logs",
        ],
        ScanCategory::IosBackups => seq![
            "Library/Application Support/MobileSync/Backup",
        ],
        _ => Seq::empty(),
    }
}

fn category_prefix_list(c: ScanCategory) -> (v: Vec<&'static str>)
    ensures
        v@ == category_prefixes(c),
{
    let v: Vec<&'static str> = match c {
        ScanCategory::NodeCaches => vec![
            ".npm",
            ".yarn",
            ".pnpm-store",
            "Library/Caches/Yarn",
            "Library/pnpm",
        ],
        ScanCategory::XcodeDerivedData => vec![
            "Library/Developer/Xcode/DerivedData",
        ],
        ScanCategory::GradleCache => vec![
            ".gradle",
        ],
        ScanCategory::SystemCaches => vec![
            "Library/Caches",
        ],
        ScanCategory::CargoCaches => vec![
            ".cargo/registry",
            ".cargo/git",
        ],
        ScanCategory::PythonCaches => vec![
            "Library/Caches/pip",
            ".cache/pip",
            ".conda/pkgs",
            "miniconda3/pkgs",
            "anaconda3/pkgs",
            ".mypy_cache",
            ".ruff_cache",
        ],
        ScanCategory::GoCache => vec![
            "go/pkg",
            "Library/Caches/go-build",
            ".cache/go-build",
        ],
        ScanCategory::MavenCache => vec![
            ".m2/repository",
        ],
        ScanCategory::RubyCache => vec![
            ".gem",
            ".bundle/cache",
            "Library/Caches/com.apple.rubygems",
        ],
        ScanCategory::DotnetCache => vec![
            ".nuget",
            ".dotnet",
            ".local/share/NuGet",
        ],
        ScanCategory::FlutterCache => vec![
            ".pub-cache",
            "Library/Caches/flutter",
            ".dartServer",
        ],
        ScanCategory::CocoaPodsCache => vec![
            "Library/Caches/CocoaPods",
            ".cocoapods",
        ],
        ScanCategory::ComposerCache => vec![
            ".composer/cache",
            "Library/Caches/composer",
        ],
        ScanCategory::IdeCaches => vec![
            "Library/Application Support/Code/",
            "Library/Application Support/Cursor/",
            "Library/Caches/JetBrains",
        ],
        ScanCategory::XcodeDeviceSupport => vec![
            "Library/Developer/Xcode/iOS DeviceSupport",
            "Library/Developer/Xcode/watchOS DeviceSupport",
            "Library/Developer/Xcode/tvOS DeviceSupport",
        ],
        ScanCategory::XcodeArchives => vec![
            "Library/Developer/Xcode/Archives",
        ],
        ScanCategory::BrowserCaches => vec![
            "Library/Caches/Google",
            "Library/Caches/com.apple.Safari",
            "Library/Caches/Firefox",
            "Library/Caches/Arc",
            "Library/Caches/com.brave.Browser",
            "Library/Caches/com.microsoft.edgemac",
            "Library/Caches/com.operasoftware.Opera",
            "Library/Caches/com.vivaldi.Vivaldi",
        ],
        ScanCategory::SystemLogs => vec![
            "Library/Logs",
        ],
        ScanCategory::IosBackups => vec![
            "Library/Application Support/MobileSync/Backup",
        ],
        _ => Vec::new(),
    };
    assert(v@ =~= category_prefixes(c));
    v
}

/// Names a Python virtual environment folder has.
pub open spec fn venv_names() -> Seq<&'static str> {
    seq!["venv", ".venv", ".tox", "env"]
}

/// The last component of `comps` is a virtual environment folder name.
pub open spec fn ends_in_venv(comps: Seq<Component>) -> bool {
    comps.len() > 0 && exists|j: int|
        0 <= j < venv_names().len() && comps.last() == Component::Normal(#[trigger] venv_names()[j]@)
}

/// Whether `path` is a plausible location for an item of category `c`, the
/// home directory being `home` (`None` when it is unknown).
pub open spec fn plausible_path(path: Seq<char>, c: ScanCategory, home: Option<Seq<char>>) -> bool {
    if removed_by_command(c) {
        true
    } else {
        match home {
            None => false,
            Some(h) => path_starts_with(path, h) && match c {
                ScanCategory::NodeDependencies => has_normal_named(
                    path_components(path),
                    "node_modules"@,
                ),
                ScanCategory::RustTargets => has_normal_named(path_components(path), "target"@),
                ScanCategory::PythonVenvs => ends_in_venv(path_components(path)),
                _ => exists|j: int|
                    0 <= j < category_prefixes(c).len() && path_components(
                        #[trigger] category_prefixes(c)[j]@,
                    ).is_prefix_of(relative_components(path, h)),
            },
        }
    }
}

pub open spec fn home_view(home: Option<&str>) -> Option<Seq<char>> {
    match home {
        Some(h) => Some(h@),
        None => None,
    }
}

/// Whether `path` is plausible for an item of `category`, given the home
/// directory `home` (`None` when it cannot be determined). Items removed by a
/// dedicated command are always plausible; any other item must lie inside the
/// home directory, in a location its category uses.
pub fn is_path_plausible(path: &str, category: &ScanCategory, home: Option<&str>) -> (r: bool)
    ensures
        r == plausible_path(path@, *category, home_view(home)),
{
    if category.is_removed_by_command() {
        return true;
    }
    let home = match home {
        Some(h) => h,
        None => return false,
    };
    let comps = components_of(path);
    let home_comps = components_of(home);
    assert(views(comps@).skip(0) =~= views(comps@));
    if !starts_with_at(&comps, 0, &home_comps) {
        return false;
    }
    match category {
        ScanCategory::NodeDependencies => contains_normal(&comps, "node_modules"),
        ScanCategory::RustTargets => contains_normal(&comps, "target"),
        ScanCategory::PythonVenvs => {
            if comps.len() == 0 {
                return false;
            }
            let names = vec!["venv", ".venv", ".tox", "env"];
            assert(names@ =~= venv_names());
            is_normal_named_any(&comps[comps.len() - 1], &names)
        },
        _ => {
            let prefixes = category_prefix_list(*category);
            starts_with_any_at(&comps, home_comps.len(), &prefixes)
        },
    }
}

/// Without a known home directory only items removed by a command are plausible.
pub proof fn lemma_plausible_without_home(path: Seq<char>, c: ScanCategory)
    ensures
        plausible_path(path, c, None) == removed_by_command(c),
{
}

/// A plausible item that is removed by deleting its path lies inside the home directory.
pub proof fn lemma_plausible_inside_home(path: Seq<char>, c: ScanCategory, home: Seq<char>)
    requires
        plausible_path(path, c, Some(home)),
        !removed_by_command(c),
    ensures
        path_starts_with(path, home),
{
}

/// A path's components start with themselves.
pub proof fn lemma_components_prefix_of_self(p: Seq<char>)
    ensures
        path_components(p).is_prefix_of(path_components(p)),
{
    let c = path_components(p);
    assert(c =~= c.subrange(0, c.len() as int));
}

/// The components of `p` come first in those of a plain relative path placed below `p`.
pub proof fn lemma_components_prefix_of_joined(p: Seq<char>, rest: Seq<char>)
    requires
        plain_relative(rest),
    ensures
        path_components(p).is_prefix_of(path_components(joined(p, rest))),
{
    lemma_joined_components(p, rest);
    let c = path_components(p);
    assert(c =~= (c + path_components(rest)).subrange(0, c.len() as int));
}

/// A plain relative path below the home directory that starts with one of a
/// category's locations is plausible for that category.
pub proof fn lemma_below_location_plausible(home: Seq<char>, rel: Seq<char>, c: ScanCategory, j: int)
    requires
        plain_relative(rel),
        !removed_by_command(c),
        c != ScanCategory::NodeDependencies,
        c != ScanCategory::RustTargets,
        c != ScanCategory::PythonVenvs,
        0 <= j < category_prefixes(c).len(),
        path_components(category_prefixes(c)[j]@).is_prefix_of(path_components(rel)),
    ensures
        plausible_path(joined(home, rel), c, Some(home)),
{
    lemma_joined_components(home, rel);
    let hc = path_components(home);
    let all = path_components(joined(home, rel));
    assert(hc =~= all.subrange(0, hc.len() as int));
    assert(relative_components(joined(home, rel), home) =~= path_components(rel));
}

/// A plain relative path that begins with one of the locations of a category
/// (each pair of category and location written out here), placed below the
/// home directory, is plausible for that category.
pub proof fn lemma_listed_locations_plausible(home: Seq<char>, rel: Seq<char>, c: ScanCategory, location: Seq<char>)
    requires
        plain_relative(rel),
        path_components(location).is_prefix_of(path_components(rel)),
        (c == ScanCategory::NodeCaches && location == ".npm"@)
        || (c == ScanCategory::NodeCaches && location == ".yarn"@)
        || (c == ScanCategory::NodeCaches && location == ".pnpm-store"@)
        || (c == ScanCategory::NodeCaches && location == "Library/Caches/Yarn"@)
        || (c == ScanCategory::NodeCaches && location == "Library/pnpm"@)
        || (c == ScanCategory::XcodeDerivedData && location == "Library/Developer/Xcode/DerivedData"@)
        || (c == ScanCategory::GradleCache && location == ".gradle"@)
        || (c == ScanCategory::SystemCaches && location == "Library/Caches"@)
        || (c == ScanCategory::CargoCaches && location == ".cargo/registry"@)
        || (c == ScanCategory::CargoCaches && location == ".cargo/git"@)
        || (c == ScanCategory::PythonCaches && location == "Library/Caches/pip"@)
        || (c == ScanCategory::PythonCaches && location == ".cache/pip"@)
        || (c == ScanCategory::PythonCaches && location == ".conda/pkgs"@)
        || (c == ScanCategory::PythonCaches && location == "miniconda3/pkgs"@)
        || (c == ScanCategory::PythonCaches && location == "anaconda3/pkgs"@)
        || (c == ScanCategory::PythonCaches && location == ".mypy_cache"@)
        || (c == ScanCategory::PythonCaches && location == ".ruff_cache"@)
        || (c == ScanCategory::GoCache && location == "go/pkg"@)
        || (c == ScanCategory::GoCache && location == "Library/Caches/go-build"@)
        || (c == ScanCategory::GoCache && location == ".cache/go-build"@)
        || (c == ScanCategory::MavenCache && location == ".m2/repository"@)
        || (c == ScanCategory::RubyCache && location == ".gem"@)
        || (c == ScanCategory::RubyCache && location == ".bundle/cache"@)
        || (c == ScanCategory::RubyCache && location == "Library/Caches/com.apple.rubygems"@)
        || (c == ScanCategory::DotnetCache && location == ".nuget"@)
        || (c == ScanCategory::DotnetCache && location == ".dotnet"@)
        || (c == ScanCategory::DotnetCache && location == ".local/share/NuGet"@)
        || (c == ScanCategory::FlutterCache && location == ".pub-cache"@)
        || (c == ScanCategory::FlutterCache && location == "Library/Caches/flutter"@)
        || (c == ScanCategory::FlutterCache && location == ".dartServer"@)
        || (c == ScanCategory::CocoaPodsCache && location == "Library/Caches/CocoaPods"@)
        || (c == ScanCategory::CocoaPodsCache && location == ".cocoapods"@)
        || (c == ScanCategory::ComposerCache && location == ".composer/cache"@)
        || (c == ScanCategory::ComposerCache && location == "Library/Caches/composer"@)
        || (c == ScanCategory::IdeCaches && location == "Library/Application Support/Code/"@)
        || (c == ScanCategory::IdeCaches && location == "Library/Application Support/Cursor/"@)
        || (c == ScanCategory::IdeCaches && location == "Library/Caches/JetBrains"@)
        || (c == ScanCategory::XcodeDeviceSupport && location == "Library/Developer/Xcode/iOS DeviceSupport"@)
        || (c == ScanCategory::XcodeDeviceSupport && location == "Library/Developer/Xcode/watchOS DeviceSupport"@)
        || (c == ScanCategory::XcodeDeviceSupport && location == "Library/Developer/Xcode/tvOS DeviceSupport"@)
        || (c == ScanCategory::XcodeArchives && location == "Library/Developer/Xcode/Archives"@)
        || (c == ScanCategory::BrowserCaches && location == "Library/Caches/Google"@)
        || (c == ScanCategory::BrowserCaches && location == "Library/Caches/com.apple.Safari"@)
        || (c == ScanCategory::BrowserCaches && location == "Library/Caches/Firefox"@)
        || (c == ScanCategory::BrowserCaches && location == "Library/Caches/Arc"@)
        || (c == ScanCategory::BrowserCaches && location == "Library/Caches/com.brave.Browser"@)
        || (c == ScanCategory::BrowserCaches && location == "Library/Caches/com.microsoft.edgemac"@)
        || (c == ScanCategory::BrowserCaches && location == "Library/Caches/com.operasoftware.Opera"@)
        || (c == ScanCategory::BrowserCaches && location == "Library/Caches/com.vivaldi.Vivaldi"@)
        || (c == ScanCategory::SystemLogs && location == "Library/Logs"@)
        || (c == ScanCategory::IosBackups && location == "Library/Application Support/MobileSync/Backup"@),
    ensures
        plausible_path(joined(home, rel), c, Some(home)),
{
    if c == ScanCategory::NodeCaches && location == ".npm"@ {
        assert(category_prefixes(c)[0]@ == ".npm"@);
        lemma_below_location_plausible(home, rel, c, 0);
    }
    else if c == ScanCategory::NodeCaches && location == ".yarn"@ {
        assert(category_prefixes(c)[1]@ == ".yarn"@);
        lemma_below_location_plausible(home, rel, c, 1);
    }
    else if c == ScanCategory::NodeCaches && location == ".pnpm-store"@ {
        assert(category_prefixes(c)[2]@ == ".pnpm-store"@);
        lemma_below_location_plausible(home, rel, c, 2);
    }
    else if c == ScanCategory::NodeCaches && location == "Library/Caches/Yarn"@ {
        assert(category_prefixes(c)[3]@ == "Library/Caches/Yarn"@);
        lemma_below_location_plausible(home, rel, c, 3);
    }
    else if c == ScanCategory::NodeCaches && location == "Library/pnpm"@ {
        assert(category_prefixes(c)[4]@ == "Library/pnpm"@);
        lemma_below_location_plausible(home, rel, c, 4);
    }
    else if c == ScanCategory::XcodeDerivedData && location == "Library/Developer/Xcode/DerivedData"@ {
        assert(category_prefixes(c)[0]@ == "Library/Developer/Xcode/DerivedData"@);
        lemma_below_location_plausible(home, rel, c, 0);
    }
    else if c == ScanCategory::GradleCache && location == ".gradle"@ {
        assert(category_prefixes(c)[0]@ == ".gradle"@);
        lemma_below_location_plausible(home, rel, c, 0);
    }
    else if c == ScanCategory::SystemCaches && location == "Library/Caches"@ {
        assert(category_prefixes(c)[0]@ == "Library/Caches"@);
        lemma_below_location_plausible(home, rel, c, 0);
    }
    else if c == ScanCategory::CargoCaches && location == ".cargo/registry"@ {
        assert(category_prefixes(c)[0]@ == ".cargo/registry"@);
        lemma_below_location_plausible(home, rel, c, 0);
    }
    else if c == ScanCategory::CargoCaches && location == ".cargo/git"@ {
        assert(category_prefixes(c)[1]@ == ".cargo/git"@);
        lemma_below_location_plausible(home, rel, c, 1);
    }
    else if c == ScanCategory::PythonCaches && location == "Library/Caches/pip"@ {
        assert(category_prefixes(c)[0]@ == "Library/Caches/pip"@);
        lemma_below_location_plausible(home, rel, c, 0);
    }
    else if c == ScanCategory::PythonCaches && location == ".cache/pip"@ {
        assert(category_prefixes(c)[1]@ == ".cache/pip"@);
        lemma_below_location_plausible(home, rel, c, 1);
    }
    else if c == ScanCategory::PythonCaches && location == ".conda/pkgs"@ {
        assert(category_prefixes(c)[2]@ == ".conda/pkgs"@);
        lemma_below_location_plausible(home, rel, c, 2);
    }
    else if c == ScanCategory::PythonCaches && location == "miniconda3/pkgs"@ {
        assert(category_prefixes(c)[3]@ == "miniconda3/pkgs"@);
        lemma_below_location_plausible(home, rel, c, 3);
    }
    else if c == ScanCategory::PythonCaches && location == "anaconda3/pkgs"@ {
        assert(category_prefixes(c)[4]@ == "anaconda3/pkgs"@);
        lemma_below_location_plausible(home, rel, c, 4);
    }
    else if c == ScanCategory::PythonCaches && location == ".mypy_cache"@ {
        assert(category_prefixes(c)[5]@ == ".mypy_cache"@);
        lemma_below_location_plausible(home, rel, c, 5);
    }
    else if c == ScanCategory::PythonCaches && location == ".ruff_cache"@ {
        assert(category_prefixes(c)[6]@ == ".ruff_cache"@);
        lemma_below_location_plausible(home, rel, c, 6);
    }
    else if c == ScanCategory::GoCache && location == "go/pkg"@ {
        assert(category_prefixes(c)[0]@ == "go/pkg"@);
        lemma_below_location_plausible(home, rel, c, 0);
    }
    else if c == ScanCategory::GoCache && location == "Library/Caches/go-build"@ {
        assert(category_prefixes(c)[1]@ == "Library/Caches/go-build"@);
        lemma_below_location_plausible(home, rel, c, 1);
    }
    else if c == ScanCategory::GoCache && location == ".cache/go-build"@ {
        assert(category_prefixes(c)[2]@ == ".cache/go-build"@);
        lemma_below_location_plausible(home, rel, c, 2);
    }
    else if c == ScanCategory::MavenCache && location == ".m2/repository"@ {
        assert(category_prefixes(c)[0]@ == ".m2/repository"@);
        lemma_below_location_plausible(home, rel, c, 0);
    }
    else if c == ScanCategory::RubyCache && location == ".gem"@ {
        assert(category_prefixes(c)[0]@ == ".gem"@);
        lemma_below_location_plausible(home, rel, c, 0);
    }
    else if c == ScanCategory::RubyCache && location == ".bundle/cache"@ {
        assert(category_prefixes(c)[1]@ == ".bundle/cache"@);
        lemma_below_location_plausible(home, rel, c, 1);
    }
    else if c == ScanCategory::RubyCache && location == "Library/Caches/com.apple.rubygems"@ {
        assert(category_prefixes(c)[2]@ == "Library/Caches/com.apple.rubygems"@);
        lemma_below_location_plausible(home, rel, c, 2);
    }
    else if c == ScanCategory::DotnetCache && location == ".nuget"@ {
        assert(category_prefixes(c)[0]@ == ".nuget"@);
        lemma_below_location_plausible(home, rel, c, 0);
    }
    else if c == ScanCategory::DotnetCache && location == ".dotnet"@ {
        assert(category_prefixes(c)[1]@ == ".dotnet"@);
        lemma_below_location_plausible(home, rel, c, 1);
    }
    else if c == ScanCategory::DotnetCache && location == ".local/share/NuGet"@ {
        assert(category_prefixes(c)[2]@ == ".local/share/NuGet"@);
        lemma_below_location_plausible(home, rel, c, 2);
    }
    else if c == ScanCategory::FlutterCache && location == ".pub-cache"@ {
        assert(category_prefixes(c)[0]@ == ".pub-cache"@);
        lemma_below_location_plausible(home, rel, c, 0);
    }
    else if c == ScanCategory::FlutterCache && location == "Library/Caches/flutter"@ {
        assert(category_prefixes(c)[1]@ == "Library/Caches/flutter"@);
        lemma_below_location_plausible(home, rel, c, 1);
    }
    else if c == ScanCategory::FlutterCache && location == ".dartServer"@ {
        assert(category_prefixes(c)[2]@ == ".dartServer"@);
        lemma_below_location_plausible(home, rel, c, 2);
    }
    else if c == ScanCategory::CocoaPodsCache && location == "Library/Caches/CocoaPods"@ {
        assert(category_prefixes(c)[0]@ == "Library/Caches/CocoaPods"@);
        lemma_below_location_plausible(home, rel, c, 0);
    }
    else if c == ScanCategory::CocoaPodsCache && location == ".cocoapods"@ {
        assert(category_prefixes(c)[1]@ == ".cocoapods"@);
        lemma_below_location_plausible(home, rel, c, 1);
    }
    else if c == ScanCategory::ComposerCache && location == ".composer/cache"@ {
        assert(category_prefixes(c)[0]@ == ".composer/cache"@);
        lemma_below_location_plausible(home, rel, c, 0);
    }
    else if c == ScanCategory::ComposerCache && location == "Library/Caches/composer"@ {
        assert(category_prefixes(c)[1]@ == "Library/Caches/composer"@);
        lemma_below_location_plausible(home, rel, c, 1);
    }
    else if c == ScanCategory::IdeCaches && location == "Library/Application Support/Code/"@ {
        assert(category_prefixes(c)[0]@ == "Library/Application Support/Code/"@);
        lemma_below_location_plausible(home, rel, c, 0);
    }
    else if c == ScanCategory::IdeCaches && location == "Library/Application Support/Cursor/"@ {
        assert(category_prefixes(c)[1]@ == "Library/Application Support/Cursor/"@);
        lemma_below_location_plausible(home, rel, c, 1);
    }
    else if c == ScanCategory::IdeCaches && location == "Library/Caches/JetBrains"@ {
        assert(category_prefixes(c)[2]@ == "Library/Caches/JetBrains"@);
        lemma_below_location_plausible(home, rel, c, 2);
    }
    else if c == ScanCategory::XcodeDeviceSupport && location == "Library/Developer/Xcode/iOS DeviceSupport"@ {
        assert(category_prefixes(c)[0]@ == "Library/Developer/Xcode/iOS DeviceSupport"@);
        lemma_below_location_plausible(home, rel, c, 0);
    }
    else if c == ScanCategory::XcodeDeviceSupport && location == "Library/Developer/Xcode/watchOS DeviceSupport"@ {
        assert(category_prefixes(c)[1]@ == "Library/Developer/Xcode/watchOS DeviceSupport"@);
        lemma_below_location_plausible(home, rel, c, 1);
    }
    else if c == ScanCategory::XcodeDeviceSupport && location == "Library/Developer/Xcode/tvOS DeviceSupport"@ {
        assert(category_prefixes(c)[2]@ == "Library/Developer/Xcode/tvOS DeviceSupport"@);
        lemma_below_location_plausible(home, rel, c, 2);
    }
    else if c == ScanCategory::XcodeArchives && location == "Library/Developer/Xcode/Archives"@ {
        assert(category_prefixes(c)[0]@ == "Library/Developer/Xcode/Archives"@);
        lemma_below_location_plausible(home, rel, c, 0);
    }
    else if c == ScanCategory::BrowserCaches && location == "Library/Caches/Google"@ {
        assert(category_prefixes(c)[0]@ == "Library/Caches/Google"@);
        lemma_below_location_plausible(home, rel, c, 0);
    }
    else if c == ScanCategory::BrowserCaches && location == "Library/Caches/com.apple.Safari"@ {
        assert(category_prefixes(c)[1]@ == "Library/Caches/com.apple.Safari"@);
        lemma_below_location_plausible(home, rel, c, 1);
    }
    else if c == ScanCategory::BrowserCaches && location == "Library/Caches/Firefox"@ {
        assert(category_prefixes(c)[2]@ == "Library/Caches/Firefox"@);
        lemma_below_location_plausible(home, rel, c, 2);
    }
    else if c == ScanCategory::BrowserCaches && location == "Library/Caches/Arc"@ {
        assert(category_prefixes(c)[3]@ == "Library/Caches/Arc"@);
        lemma_below_location_plausible(home, rel, c, 3);
    }
    else if c == ScanCategory::BrowserCaches && location == "Library/Caches/com.brave.Browser"@ {
        assert(category_prefixes(c)[4]@ == "Library/Caches/com.brave.Browser"@);
        lemma_below_location_plausible(home, rel, c, 4);
    }
    else if c == ScanCategory::BrowserCaches && location == "Library/Caches/com.microsoft.edgemac"@ {
        assert(category_prefixes(c)[5]@ == "Library/Caches/com.microsoft.edgemac"@);
        lemma_below_location_plausible(home, rel, c, 5);
    }
    else if c == ScanCategory::BrowserCaches && location == "Library/Caches/com.operasoftware.Opera"@ {
        assert(category_prefixes(c)[6]@ == "Library/Caches/com.operasoftware.Opera"@);
        lemma_below_location_plausible(home, rel, c, 6);
    }
    else if c == ScanCategory::BrowserCaches && location == "Library/Caches/com.vivaldi.Vivaldi"@ {
        assert(category_prefixes(c)[7]@ == "Library/Caches/com.vivaldi.Vivaldi"@);
        lemma_below_location_plausible(home, rel, c, 7);
    }
    else if c == ScanCategory::SystemLogs && location == "Library/Logs"@ {
        assert(category_prefixes(c)[0]@ == "Library/Logs"@);
        lemma_below_location_plausible(home, rel, c, 0);
    }
    else if c == ScanCategory::IosBackups && location == "Library/Application Support/MobileSync/Backup"@ {
        assert(category_prefixes(c)[0]@ == "Library/Application Support/MobileSync/Backup"@);
        lemma_below_location_plausible(home, rel, c, 0);
    }
}

/// A path plausible for a category recognised by location lies, relative to
/// the home directory, below one of the locations of that category (each
/// written out here); documents and application data are never plausible.
pub proof fn lemma_plausible_only_in_listed_locations(path: Seq<char>, c: ScanCategory, home: Seq<char>)
    requires
        plausible_path(path, c, Some(home)),
        !removed_by_command(c),
        c != ScanCategory::NodeDependencies,
        c != ScanCategory::RustTargets,
        c != ScanCategory::PythonVenvs,
    ensures
        c == ScanCategory::NodeCaches ==> (path_components(".npm"@).is_prefix_of(relative_components(path, home)) || path_components(".yarn"@).is_prefix_of(relative_components(path, home)) || path_components(".pnpm-store"@).is_prefix_of(relative_components(path, home)) || path_components("Library/Caches/Yarn"@).is_prefix_of(relative_components(path, home)) || path_components("Library/pnpm"@).is_prefix_of(relative_components(path, home))),
        c == ScanCategory::XcodeDerivedData ==> (path_components("Library/Developer/Xcode/DerivedData"@).is_prefix_of(relative_components(path, home))),
        c == ScanCategory::GradleCache ==> (path_components(".gradle"@).is_prefix_of(relative_components(path, home))),
        c == ScanCategory::SystemCaches ==> (path_components("Library/Caches"@).is_prefix_of(relative_components(path, home))),
        c == ScanCategory::CargoCaches ==> (path_components(".cargo/registry"@).is_prefix_of(relative_components(path, home)) || path_components(".cargo/git"@).is_prefix_of(relative_components(path, home))),
        c == ScanCategory::PythonCaches ==> (path_components("Library/Caches/pip"@).is_prefix_of(relative_components(path, home)) || path_components(".cache/pip"@).is_prefix_of(relative_components(path, home)) || path_components(".conda/pkgs"@).is_prefix_of(relative_components(path, home)) || path_components("miniconda3/pkgs"@).is_prefix_of(relative_components(path, home)) || path_components("anaconda3/pkgs"@).is_prefix_of(relative_components(path, home)) || path_components(".mypy_cache"@).is_prefix_of(relative_components(path, home)) || path_components(".ruff_cache"@).is_prefix_of(relative_components(path, home))),
        c == ScanCategory::GoCache ==> (path_components("go/pkg"@).is_prefix_of(relative_components(path, home)) || path_components("Library/Caches/go-build"@).is_prefix_of(relative_components(path, home)) || path_components(".cache/go-build"@).is_prefix_of(relative_components(path, home))),
        c == ScanCategory::MavenCache ==> (path_components(".m2/repository"@).is_prefix_of(relative_components(path, home))),
        c == ScanCategory::RubyCache ==> (path_components(".gem"@).is_prefix_of(relative_components(path, home)) || path_components(".bundle/cache"@).is_prefix_of(relative_components(path, home)) || path_components("Library/Caches/com.apple.rubygems"@).is_prefix_of(relative_components(path, home))),
        c == ScanCategory::DotnetCache ==> (path_components(".nuget"@).is_prefix_of(relative_components(path, home)) || path_components(".dotnet"@).is_prefix_of(relative_components(path, home)) || path_components(".local/share/NuGet"@).is_prefix_of(relative_components(path, home))),
        c == ScanCategory::FlutterCache ==> (path_components(".pub-cache"@).is_prefix_of(relative_components(path, home)) || path_components("Library/Caches/flutter"@).is_prefix_of(relative_components(path, home)) || path_components(".dartServer"@).is_prefix_of(relative_components(path, home))),
        c == ScanCategory::CocoaPodsCache ==> (path_components("Library/Caches/CocoaPods"@).is_prefix_of(relative_components(path, home)) || path_components(".cocoapods"@).is_prefix_of(relative_components(path, home))),
        c == ScanCategory::ComposerCache ==> (path_components(".composer/cache"@).is_prefix_of(relative_components(path, home)) || path_components("Library/Caches/composer"@).is_prefix_of(relative_components(path, home))),
        c == ScanCategory::IdeCaches ==> (path_components("Library/Application Support/Code/"@).is_prefix_of(relative_components(path, home)) || path_components("Library/Application Support/Cursor/"@).is_prefix_of(relative_components(path, home)) || path_components("Library/Caches/JetBrains"@).is_prefix_of(relative_components(path, home))),
        c == ScanCategory::XcodeDeviceSupport ==> (path_components("Library/Developer/Xcode/iOS DeviceSupport"@).is_prefix_of(relative_components(path, home)) || path_components("Library/Developer/Xcode/watchOS DeviceSupport"@).is_prefix_of(relative_components(path, home)) || path_components("Library/Developer/Xcode/tvOS DeviceSupport"@).is_prefix_of(relative_components(path, home))),
        c == ScanCategory::XcodeArchives ==> (path_components("Library/Developer/Xcode/Archives"@).is_prefix_of(relative_components(path, home))),
        c == ScanCategory::BrowserCaches ==> (path_components("Library/Caches/Google"@).is_prefix_of(relative_components(path, home)) || path_components("Library/Caches/com.apple.Safari"@).is_prefix_of(relative_components(path, home)) || path_components("Library/Caches/Firefox"@).is_prefix_of(relative_components(path, home)) || path_components("Library/Caches/Arc"@).is_prefix_of(relative_components(path, home)) || path_components("Library/Caches/com.brave.Browser"@).is_prefix_of(relative_components(path, home)) || path_components("Library/Caches/com.microsoft.edgemac"@).is_prefix_of(relative_components(path, home)) || path_components("Library/Caches/com.operasoftware.Opera"@).is_prefix_of(relative_components(path, home)) || path_components("Library/Caches/com.vivaldi.Vivaldi"@).is_prefix_of(relative_components(path, home))),
        c == ScanCategory::SystemLogs ==> (path_components("Library/Logs"@).is_prefix_of(relative_components(path, home))),
        c == ScanCategory::IosBackups ==> (path_components("Library/Application Support/MobileSync/Backup"@).is_prefix_of(relative_components(path, home))),
        c != ScanCategory::Documents,
        c != ScanCategory::AppData,
{
    let rel = relative_components(path, home);
    let j = choose|j: int|
        0 <= j < category_prefixes(c).len() && path_components(
            #[trigger] category_prefixes(c)[j]@,
        ).is_prefix_of(rel);
    assert(path_components(category_prefixes(c)[j]@).is_prefix_of(rel));
        if c == ScanCategory::NodeCaches {
            if j == 0 {
                assert(category_prefixes(c)[j]@ == ".npm"@);
            }
            else if j == 1 {
                assert(category_prefixes(c)[j]@ == ".yarn"@);
            }
            else if j == 2 {
                assert(category_prefixes(c)[j]@ == ".pnpm-store"@);
            }
            else if j == 3 {
                assert(category_prefixes(c)[j]@ == "Library/Caches/Yarn"@);
            }
            else if j == 4 {
                assert(category_prefixes(c)[j]@ == "Library/pnpm"@);
            }
        }
        else if c == ScanCategory::XcodeDerivedData {
            if j == 0 {
                assert(category_prefixes(c)[j]@ == "Library/Developer/Xcode/DerivedData"@);
            }
        }
        else if c == ScanCategory::GradleCache {
            if j == 0 {
                assert(category_prefixes(c)[j]@ == ".gradle"@);
            }
        }
        else if c == ScanCategory::SystemCaches {
            if j == 0 {
                assert(category_prefixes(c)[j]@ == "Library/Caches"@);
            }
        }
        else if c == ScanCategory::CargoCaches {
            if j == 0 {
                assert(category_prefixes(c)[j]@ == ".cargo/registry"@);
            }
            else if j == 1 {
                assert(category_prefixes(c)[j]@ == ".cargo/git"@);
            }
        }
        else if c == ScanCategory::PythonCaches {
            if j == 0 {
                assert(category_prefixes(c)[j]@ == "Library/Caches/pip"@);
            }
            else if j == 1 {
                assert(category_prefixes(c)[j]@ == ".cache/pip"@);
            }
            else if j == 2 {
                assert(category_prefixes(c)[j]@ == ".conda/pkgs"@);
            }
            else if j == 3 {
                assert(category_prefixes(c)[j]@ == "miniconda3/pkgs"@);
            }
            else if j == 4 {
                assert(category_prefixes(c)[j]@ == "anaconda3/pkgs"@);
            }
            else if j == 5 {
                assert(category_prefixes(c)[j]@ == ".mypy_cache"@);
            }
            else if j == 6 {
                assert(category_prefixes(c)[j]@ == ".ruff_cache"@);
            }
        }
        else if c == ScanCategory::GoCache {
            if j == 0 {
                assert(category_prefixes(c)[j]@ == "go/pkg"@);
            }
            else if j == 1 {
                assert(category_prefixes(c)[j]@ == "Library/Caches/go-build"@);
            }
            else if j == 2 {
                assert(category_prefixes(c)[j]@ == ".cache/go-build"@);
            }
        }
        else if c == ScanCategory::MavenCache {
            if j == 0 {
                assert(category_prefixes(c)[j]@ == ".m2/repository"@);
            }
        }
        else if c == ScanCategory::RubyCache {
            if j == 0 {
                assert(category_prefixes(c)[j]@ == ".gem"@);
            }
            else if j == 1 {
                assert(category_prefixes(c)[j]@ == ".bundle/cache"@);
            }
            else if j == 2 {
                assert(category_prefixes(c)[j]@ == "Library/Caches/com.apple.rubygems"@);
            }
        }
        else if c == ScanCategory::DotnetCache {
            if j == 0 {
                assert(category_prefixes(c)[j]@ == ".nuget"@);
            }
            else if j == 1 {
                assert(category_prefixes(c)[j]@ == ".dotnet"@);
            }
            else if j == 2 {
                assert(category_prefixes(c)[j]@ == ".local/share/NuGet"@);
            }
        }
        else if c == ScanCategory::FlutterCache {
            if j == 0 {
                assert(category_prefixes(c)[j]@ == ".pub-cache"@);
            }
            else if j == 1 {
                assert(category_prefixes(c)[j]@ == "Library/Caches/flutter"@);
            }
            else if j == 2 {
                assert(category_prefixes(c)[j]@ == ".dartServer"@);
            }
        }
        else if c == ScanCategory::CocoaPodsCache {
            if j == 0 {
                assert(category_prefixes(c)[j]@ == "Library/Caches/CocoaPods"@);
            }
            else if j == 1 {
                assert(category_prefixes(c)[j]@ == ".cocoapods"@);
            }
        }
        else if c == ScanCategory::ComposerCache {
            if j == 0 {
                assert(category_prefixes(c)[j]@ == ".composer/cache"@);
            }
            else if j == 1 {
                assert(category_prefixes(c)[j]@ == "Library/Caches/composer"@);
            }
        }
        else if c == ScanCategory::IdeCaches {
            if j == 0 {
                assert(category_prefixes(c)[j]@ == "Library/Application Support/Code/"@);
            }
            else if j == 1 {
                assert(category_prefixes(c)[j]@ == "Library/Application Support/Cursor/"@);
            }
            else if j == 2 {
                assert(category_prefixes(c)[j]@ == "Library/Caches/JetBrains"@);
            }
        }
        else if c == ScanCategory::XcodeDeviceSupport {
            if j == 0 {
                assert(category_prefixes(c)[j]@ == "Library/Developer/Xcode/iOS DeviceSupport"@);
            }
            else if j == 1 {
                assert(category_prefixes(c)[j]@ == "Library/Developer/Xcode/watchOS DeviceSupport"@);
            }
            else if j == 2 {
                assert(category_prefixes(c)[j]@ == "Library/Developer/Xcode/tvOS DeviceSupport"@);
            }
        }
        else if c == ScanCategory::XcodeArchives {
            if j == 0 {
                assert(category_prefixes(c)[j]@ == "Library/Developer/Xcode/Archives"@);
            }
        }
        else if c == ScanCategory::BrowserCaches {
            if j == 0 {
                assert(category_prefixes(c)[j]@ == "Library/Caches/Google"@);
            }
            else if j == 1 {
                assert(category_prefixes(c)[j]@ == "Library/Caches/com.apple.Safari"@);
            }
            else if j == 2 {
                assert(category_prefixes(c)[j]@ == "Library/Caches/Firefox"@);
            }
            else if j == 3 {
                assert(category_prefixes(c)[j]@ == "Library/Caches/Arc"@);
            }
            else if j == 4 {
                assert(category_prefixes(c)[j]@ == "Library/Caches/com.brave.Browser"@);
            }
            else if j == 5 {
                assert(category_prefixes(c)[j]@ == "Library/Caches/com.microsoft.edgemac"@);
            }
            else if j == 6 {
                assert(category_prefixes(c)[j]@ == "Library/Caches/com.operasoftware.Opera"@);
            }
            else if j == 7 {
                assert(category_prefixes(c)[j]@ == "Library/Caches/com.vivaldi.Vivaldi"@);
            }
        }
        else if c == ScanCategory::SystemLogs {
            if j == 0 {
                assert(category_prefixes(c)[j]@ == "Library/Logs"@);
            }
        }
        else if c == ScanCategory::IosBackups {
            if j == 0 {
                assert(category_prefixes(c)[j]@ == "Library/Application Support/MobileSync/Backup"@);
            }
        }
}

/// Items removed by a command are plausible anywhere (the seven categories
/// written out here), and only they are plausible when the home directory is unknown.
pub proof fn lemma_command_categories_plausible(path: Seq<char>, c: ScanCategory, home: Option<Seq<char>>)
    ensures
        (c == ScanCategory::DockerImages || c == ScanCategory::DockerBuildCache
            || c == ScanCategory::HomebrewCache || c == ScanCategory::XcodeSimulators
            || c == ScanCategory::Trash || c == ScanCategory::OldDownloads
            || c == ScanCategory::TimeMachineSnapshots) ==> plausible_path(path, c, home),
        plausible_path(path, c, None) ==> (c == ScanCategory::DockerImages || c
            == ScanCategory::DockerBuildCache || c == ScanCategory::HomebrewCache || c
            == ScanCategory::XcodeSimulators || c == ScanCategory::Trash || c
            == ScanCategory::OldDownloads || c == ScanCategory::TimeMachineSnapshots),
{
}

/// Dependency folders, Cargo build folders and virtual environments must lie
/// inside the home directory and, respectively, contain a `node_modules`
/// component, contain a `target` component, or end in a folder named `venv`,
/// `.venv`, `.tox` or `env`.
pub proof fn lemma_project_categories_plausible(path: Seq<char>, home: Seq<char>)
    ensures
        plausible_path(path, ScanCategory::NodeDependencies, Some(home)) == (path_starts_with(path, home)
            && has_normal_named(path_components(path), "node_modules"@)),
        plausible_path(path, ScanCategory::RustTargets, Some(home)) == (path_starts_with(path, home)
            && has_normal_named(path_components(path), "target"@)),
        plausible_path(path, ScanCategory::PythonVenvs, Some(home)) == (path_starts_with(path, home)
            && path_components(path).len() > 0 && {
            let last = path_components(path).last();
            last == Component::Normal("venv"@) || last == Component::Normal(".venv"@) || last
                == Component::Normal(".tox"@) || last == Component::Normal("env"@)
        }),
{
    let comps = path_components(path);
    if comps.len() > 0 {
        let last = comps.last();
        if last == Component::Normal("venv"@) {
            assert(venv_names()[0]@ == "venv"@);
        } else if last == Component::Normal(".venv"@) {
            assert(venv_names()[1]@ == ".venv"@);
        } else if last == Component::Normal(".tox"@) {
            assert(venv_names()[2]@ == ".tox"@);
        } else if last == Component::Normal("env"@) {
            assert(venv_names()[3]@ == "env"@);
        }
        if ends_in_venv(comps) {
            let j = choose|j: int|
                0 <= j < venv_names().len() && comps.last() == Component::Normal(#[trigger] venv_names()[j]@);
            if j == 0 {
                assert(venv_names()[j]@ == "venv"@);
            } else if j == 1 {
                assert(venv_names()[j]@ == ".venv"@);
            } else if j == 2 {
                assert(venv_names()[j]@ == ".tox"@);
            } else {
                assert(venv_names()[j]@ == "env"@);
            }
        }
    }
}

} // verus!