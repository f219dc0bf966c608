//! What the scan recipes make of what they observe: the items they report,
//! where they look, and how they name what they find.

use vstd::prelude::*;
use vstd::string::StringExecFns;
use crate::ids::{hash_id, id_for};
use crate::model::{category_key, SafetyLevel, ScanCategory, ScanItem};
use crate::path::{joined, plain_relative};
use crate::plausibility::{
    category_prefixes, lemma_below_location_plausible, lemma_components_prefix_of_joined,
    lemma_components_prefix_of_self, plausible_path,
};
use crate::text::{
    after_last, after_last_of, before_last, before_last_of, chars_of, string_from_chars,
};

verus! {

/// `r` is a Green item of `category` found at `path`, whose id is derived
/// from `id_path` and the category key.
pub open spec fn is_found_item(
    r: ScanItem,
    id_path: Seq<char>,
    path: Seq<char>,
    display_name: Seq<char>,
    description: Seq<char>,
    size: u64,
    category: ScanCategory,
    last_modified: Option<i64>,
) -> bool {
    &&& r.id@ == id_for(id_path, category_key(category))
    &&& r.path@ == path
    &&& r.display_name@ == display_name
    &&& r.description@ == description
    &&& r.size_bytes == size
    &&& r.safety == SafetyLevel::Green
    &&& r.category == category
    &&& r.last_modified == last_modified
}

fn found_item(
    id_path: &str,
    path: &str,
    display_name: String,
    description: &str,
    size: u64,
    category: ScanCategory,
    last_modified: Option<i64>,
) -> (r: ScanItem)
    ensures
        is_found_item(r, id_path@, path@, display_name@, description@, size, category, last_modified),
{
    ScanItem {
        id: hash_id(id_path, category.as_str()),
        path: String::from_str(path),
        display_name,
        description: String::from_str(description),
        size_bytes: size,
        safety: SafetyLevel::Green,
        category,
        last_modified,
    }
}

/// A fixed place, relative to the home directory, that a recipe measures.
pub struct CacheLocation {
    pub relative: &'static str,
    pub name: &'static str,
    pub description: &'static str,
}

/// The relative path, name and description of each location.
pub open spec fn location_table(v: Seq<CacheLocation>) -> Seq<(&'static str, &'static str, &'static str)> {
    v.map_values(|l: CacheLocation| (l.relative, l.name, l.description))
}

/// The item for a fixed location measured at `size` bytes: none when it is empty.
pub fn location_item(
    path: &str,
    location: &CacheLocation,
    category: ScanCategory,
    size: u64,
    last_modified: Option<i64>,
) -> (r: Option<ScanItem>)
    ensures
        size == 0 ==> r is None,
        size != 0 ==> (r matches Some(item) && is_found_item(
            item,
            path@,
            path@,
            location.name@,
            location.description@,
            size,
            category,
            last_modified,
        )),
{
    if size == 0 {
        return None;
    }
    Some(found_item(path, path, String::from_str(location.name), location.description, size, category, last_modified))
}

/// The places npm, Yarn and pnpm keep their caches: relative path, name, description.
pub open spec fn node_cache_table() -> Seq<(&'static str, &'static str, &'static str)> {
    seq![
        (".npm/_cacache", "npm cache", "npm download cache - cleared safely with npm cache clean"),
        (".yarn/cache", "Yarn cache", "Yarn package cache - re-downloaded when needed"),
        ("Library/Caches/Yarn", "Yarn cache (Library)", "Yarn package cache in Library - re-downloaded when needed"),
        ("Library/pnpm/store", "pnpm store", "pnpm content-addressable store - rebuilt with pnpm store prune"),
        (".pnpm-store", "pnpm store", "pnpm content-addressable store - rebuilt with pnpm store prune"),
    ]
}

pub fn node_cache_locations() -> (v: Vec<CacheLocation>)
    ensures
        location_table(v@) == node_cache_table(),
{
    let v = vec![
        CacheLocation { relative: ".npm/_cacache", name: "npm cache", description: "npm download cache - cleared safely with npm cache clean" },
        CacheLocation { relative: ".yarn/cache", name: "Yarn cache", description: "Yarn package cache - re-downloaded when needed" },
        CacheLocation { relative: "Library/Caches/Yarn", name: "Yarn cache (Library)", description: "Yarn package cache in Library - re-downloaded when needed" },
        CacheLocation { relative: "Library/pnpm/store", name: "pnpm store", description: "pnpm content-addressable store - rebuilt with pnpm store prune" },
        CacheLocation { relative: ".pnpm-store", name: "pnpm store", description: "pnpm content-addressable store - rebuilt with pnpm store prune" },
    ];
    assert(location_table(v@) =~= node_cache_table());
    v
}

/// The places Gradle keeps its caches: relative path, name, description.
pub open spec fn gradle_cache_table() -> Seq<(&'static str, &'static str, &'static str)> {
    seq![
        (".gradle/caches", "Gradle build cache", "Cached dependencies for Android/Java projects. Re-downloaded on next build."),
        (".gradle/wrapper/dists", "Gradle wrapper distributions", "Cached dependencies for Android/Java projects. Re-downloaded on next build."),
    ]
}

pub fn gradle_cache_locations() -> (v: Vec<CacheLocation>)
    ensures
        location_table(v@) == gradle_cache_table(),
{
    let v = vec![
        CacheLocation { relative: ".gradle/caches", name: "Gradle build cache", description: "Cached dependencies for Android/Java projects. Re-downloaded on next build." },
        CacheLocation { relative: ".gradle/wrapper/dists", name: "Gradle wrapper distributions", description: "Cached dependencies for Android/Java projects. Re-downloaded on next build." },
    ];
    assert(location_table(v@) =~= gradle_cache_table());
    v
}

/// The places the simulators keep devices and caches: relative path, name, description.
pub open spec fn simulator_table() -> Seq<(&'static str, &'static str, &'static str)> {
    seq![
        ("Library/Developer/CoreSimulator/Devices", "Xcode simulator devices", "iOS/watchOS/tvOS simulator devices. Re-downloaded from Xcode when needed."),
        ("Library/Developer/CoreSimulator/Caches", "Xcode simulator caches", "Cached data for iOS simulators. Rebuilt when needed."),
    ]
}

pub fn simulator_locations() -> (v: Vec<CacheLocation>)
    ensures
        location_table(v@) == simulator_table(),
{
    let v = vec![
        CacheLocation { relative: "Library/Developer/CoreSimulator/Devices", name: "Xcode simulator devices", description: "iOS/watchOS/tvOS simulator devices. Re-downloaded from Xcode when needed." },
        CacheLocation { relative: "Library/Developer/CoreSimulator/Caches", name: "Xcode simulator caches", description: "Cached data for iOS simulators. Rebuilt when needed." },
    ];
    assert(location_table(v@) =~= simulator_table());
    v
}

/// Folders of the home directory searched for projects.
pub open spec fn project_roots() -> Seq<&'static str> {
    seq!["Development", "Projects", "Code", "repos", "workspace", "Desktop", "Documents", "dev", "src"]
}

pub fn project_root_names() -> (v: Vec<&'static str>)
    ensures
        v@ == project_roots(),
{
    let v = vec!["Development", "Projects", "Code", "repos", "workspace", "Desktop", "Documents", "dev", "src"];
    assert(v@ =~= project_roots());
    v
}

/// Whether a file name is hidden (starts with a dot).
pub fn is_hidden_name(name: &str) -> (r: bool)
    ensures
        r == (name@.len() > 0 && name@[0] == '.'),
{
    let chars = chars_of(name);
    chars.len() > 0 && chars[0] == '.'
}

/// Whether the search for dependency folders visits an entry called `name`:
/// not hidden and not `.git` (neither is looked into either).
pub fn walk_enters(name: &str) -> (r: bool)
    ensures
        r == (!(name@.len() > 0 && name@[0] == '.') && name@ != ".git"@),
{
    let chars = chars_of(name);
    let git = chars_of(".git");
    !is_hidden_name(name) && !crate::path::chars_equal(&chars, &git)
}

/// Whether the search for dependency folders looks inside a visited folder
/// called `name`: not inside a `node_modules` folder, which is reported whole.
pub fn walk_descends(name: &str) -> (r: bool)
    ensures
        r == (!(name@.len() > 0 && name@[0] == '.') && name@ != ".git"@ && name@ != "node_modules"@),
{
    let chars = chars_of(name);
    let deps = chars_of("node_modules");
    walk_enters(name) && !crate::path::chars_equal(&chars, &deps)
}

/// The item for a dependency folder of the project `project_name`: none when empty.
pub fn node_modules_item(path: &str, project_name: &str, size: u64, last_modified: Option<i64>) -> (r: Option<ScanItem>)
    ensures
        size == 0 ==> r is None,
        size != 0 ==> (r matches Some(item) && is_found_item(
            item,
            path@,
            path@,
            project_name@ + "/node_modules"@,
            "Coding project dependencies - re-downloaded when you run npm install"@,
            size,
            ScanCategory::NodeDependencies,
            last_modified,
        )),
{
    if size == 0 {
        return None;
    }
    let mut display = String::from_str(project_name);
    display.append("/node_modules");
    Some(found_item(path, path, display, "Coding project dependencies - re-downloaded when you run npm install", size, ScanCategory::NodeDependencies, last_modified))
}

/// The project a build-data folder belongs to: its name before the last `-`
/// (folders are named like `ProjectName-abcdef123`), or the whole name.
pub open spec fn derived_data_project(dir_name: Seq<char>) -> Seq<char> {
    match before_last(dir_name, '-') {
        Some(p) => p,
        None => dir_name,
    }
}

/// The item for one project's Xcode build data: none when empty.
pub fn derived_data_item(path: &str, dir_name: &str, size: u64, last_modified: Option<i64>) -> (r: Option<ScanItem>)
    ensures
        size == 0 ==> r is None,
        size != 0 ==> (r matches Some(item) && is_found_item(
            item,
            path@,
            path@,
            derived_data_project(dir_name@) + " (Xcode build data)"@,
            "Build artifacts from Xcode. Rebuilt automatically when you open the project."@,
            size,
            ScanCategory::XcodeDerivedData,
            last_modified,
        )),
{
    if size == 0 {
        return None;
    }
    let chars = chars_of(dir_name);
    let project = match before_last_of(&chars, '-') {
        Some(p) => p,
        None => chars,
    };
    let mut display = string_from_chars(&project);
    display.append(" (Xcode build data)");
    Some(found_item(path, path, display, "Build artifacts from Xcode. Rebuilt automatically when you open the project.", size, ScanCategory::XcodeDerivedData, last_modified))
}

/// The last component of a bundle identifier, e.g. `Safari` for `com.apple.Safari`.
pub fn humanize_bundle_id(bundle_id: &str) -> (r: String)
    ensures
        r@ == after_last(bundle_id@, '.'),
{
    let chars = chars_of(bundle_id);
    let last = after_last_of(&chars, '.');
    string_from_chars(&last)
}

/// Application caches smaller than this are not reported.
pub const LIBRARY_CACHE_MIN_BYTES: u64 = 50_000_000;

/// The item for one application's cache folder `dir_name`: none below 50 MB.
pub fn library_cache_item(path: &str, dir_name: &str, size: u64, last_modified: Option<i64>) -> (r: Option<ScanItem>)
    ensures
        size < LIBRARY_CACHE_MIN_BYTES ==> r is None,
        size >= LIBRARY_CACHE_MIN_BYTES ==> (r matches Some(item) && is_found_item(
            item,
            path@,
            path@,
            after_last(dir_name@, '.') + " cache"@,
            "Application cache - regenerated automatically by the app."@,
            size,
            ScanCategory::SystemCaches,
            last_modified,
        )),
{
    if size < LIBRARY_CACHE_MIN_BYTES {
        return None;
    }
    let mut display = humanize_bundle_id(dir_name);
    display.append(" cache");
    Some(found_item(path, path, display, "Application cache - regenerated automatically by the app.", size, ScanCategory::SystemCaches, last_modified))
}

/// The item for the Homebrew download cache at `path`: none when empty.
pub fn homebrew_item(path: &str, size: u64, last_modified: Option<i64>) -> (r: Option<ScanItem>)
    ensures
        size == 0 ==> r is None,
        size != 0 ==> (r matches Some(item) && is_found_item(
            item,
            path@,
            path@,
            "Homebrew package cache"@,
            "Downloaded package files from Homebrew. No longer needed after installation."@,
            size,
            ScanCategory::HomebrewCache,
            last_modified,
        )),
{
    if size == 0 {
        return None;
    }
    Some(found_item(path, path, String::from_str("Homebrew package cache"), "Downloaded package files from Homebrew. No longer needed after installation.", size, ScanCategory::HomebrewCache, last_modified))
}

/// The item for the space unused Docker images take: none when there is none.
pub fn docker_images_item(reclaimable: u64) -> (r: Option<ScanItem>)
    ensures
        reclaimable == 0 ==> r is None,
        reclaimable != 0 ==> (r matches Some(item) && is_found_item(
            item,
            "docker_images"@,
            "docker://images"@,
            "Docker unused images"@,
            "Container images not used by any running container. Re-pulled when needed."@,
            reclaimable,
            ScanCategory::DockerImages,
            None,
        )),
{
    if reclaimable == 0 {
        return None;
    }
    Some(found_item("docker_images", "docker://images", String::from_str("Docker unused images"), "Container images not used by any running container. Re-pulled when needed.", reclaimable, ScanCategory::DockerImages, None))
}

/// The item for the space Docker's build cache takes: none when there is none.
pub fn docker_build_cache_item(reclaimable: u64) -> (r: Option<ScanItem>)
    ensures
        reclaimable == 0 ==> r is None,
        reclaimable != 0 ==> (r matches Some(item) && is_found_item(
            item,
            "docker_build_cache"@,
            "docker://build-cache"@,
            "Docker build cache"@,
            "Cached layers from building containers. Rebuilt automatically on next build."@,
            reclaimable,
            ScanCategory::DockerBuildCache,
            None,
        )),
{
    if reclaimable == 0 {
        return None;
    }
    Some(found_item("docker_build_cache", "docker://build-cache", String::from_str("Docker build cache"), "Cached layers from building containers. Rebuilt automatically on next build.", reclaimable, ScanCategory::DockerBuildCache, None))
}

/// Every npm, Yarn and pnpm cache location, placed below a home directory, is
/// plausible for its category when a cleanup re-checks it.
#[verifier::spinoff_prover]
#[verifier::rlimit(50)]
pub proof fn lemma_node_cache_locations_plausible(home: Seq<char>)
    ensures
        forall|k: int|
            0 <= k < node_cache_table().len() ==> plausible_path(
                joined(home, (#[trigger] node_cache_table()[k]).0@),
                ScanCategory::NodeCaches,
                Some(home),
            ),
{
    let c = ScanCategory::NodeCaches;
    reveal_strlit(".npm/_cacache");
    reveal_strlit(".yarn/cache");
    reveal_strlit("Library/Caches/Yarn");
    reveal_strlit("Library/pnpm/store");
    reveal_strlit(".pnpm-store");
    reveal_strlit(".npm");
    reveal_strlit(".yarn");
    reveal_strlit("Library/pnpm");
    let r0 = ".npm/_cacache"@;
    assert(r0 =~= joined(".npm"@, r0.skip(5)));
    lemma_components_prefix_of_joined(".npm"@, r0.skip(5));
    lemma_below_location_plausible(home, r0, c, 0);
    let r1 = ".yarn/cache"@;
    assert(r1 =~= joined(".yarn"@, r1.skip(6)));
    lemma_components_prefix_of_joined(".yarn"@, r1.skip(6));
    lemma_below_location_plausible(home, r1, c, 1);
    let r2 = "Library/Caches/Yarn"@;
    lemma_components_prefix_of_self(r2);
    lemma_below_location_plausible(home, r2, c, 3);
    let r3 = "Library/pnpm/store"@;
    assert(r3 =~= joined("Library/pnpm"@, r3.skip(13)));
    lemma_components_prefix_of_joined("Library/pnpm"@, r3.skip(13));
    lemma_below_location_plausible(home, r3, c, 4);
    let r4 = ".pnpm-store"@;
    lemma_components_prefix_of_self(r4);
    lemma_below_location_plausible(home, r4, c, 2);
    assert forall|k: int| 0 <= k < node_cache_table().len() implies plausible_path(
        joined(home, (#[trigger] node_cache_table()[k]).0@),
        c,
        Some(home),
    ) by {
        if k == 0 {
            assert(node_cache_table()[k].0@ == r0);
        } else if k == 1 {
            assert(node_cache_table()[k].0@ == r1);
        } else if k == 2 {
            assert(node_cache_table()[k].0@ == r2);
        } else if k == 3 {
            assert(node_cache_table()[k].0@ == r3);
        } else {
            assert(node_cache_table()[k].0@ == r4);
        }
    }
}

/// Both Gradle cache locations, placed below a home directory, are plausible
/// for their category when a cleanup re-checks them.
pub proof fn lemma_gradle_cache_locations_plausible(home: Seq<char>)
    ensures
        forall|k: int|
            0 <= k < gradle_cache_table().len() ==> plausible_path(
                joined(home, (#[trigger] gradle_cache_table()[k]).0@),
                ScanCategory::GradleCache,
                Some(home),
            ),
{
    let c = ScanCategory::GradleCache;
    reveal_strlit(".gradle/caches");
    reveal_strlit(".gradle/wrapper/dists");
    reveal_strlit(".gradle");
    let r0 = ".gradle/caches"@;
    assert(r0 =~= joined(".gradle"@, r0.skip(8)));
    lemma_components_prefix_of_joined(".gradle"@, r0.skip(8));
    lemma_below_location_plausible(home, r0, c, 0);
    let r1 = ".gradle/wrapper/dists"@;
    assert(r1 =~= joined(".gradle"@, r1.skip(8)));
    lemma_components_prefix_of_joined(".gradle"@, r1.skip(8));
    lemma_below_location_plausible(home, r1, c, 0);
    assert forall|k: int| 0 <= k < gradle_cache_table().len() implies plausible_path(
        joined(home, (#[trigger] gradle_cache_table()[k]).0@),
        c,
        Some(home),
    ) by {
        if k == 0 {
            assert(gradle_cache_table()[k].0@ == r0);
        } else {
            assert(gradle_cache_table()[k].0@ == r1);
        }
    }
}

/// The folder below the home directory that holds the per-application caches.
pub open spec fn library_caches_dir() -> Seq<char> {
    "Library/Caches"@
}

/// The folder below the home directory that holds Xcode's per-project build data.
pub open spec fn derived_data_dir() -> Seq<char> {
    "Library/Developer/Xcode/DerivedData"@
}

/// Where a fixed location lies for the home directory `home`.
pub fn location_path(home: &str, location: &CacheLocation) -> (r: String)
    ensures
        r@ == joined(home@, location.relative@),
{
    crate::path::join_path(home, location.relative)
}

/// The per-application caches folder of the home directory `home`.
pub fn library_caches_path(home: &str) -> (r: String)
    ensures
        r@ == joined(home@, library_caches_dir()),
{
    crate::path::join_path(home, "Library/Caches")
}

/// Xcode's per-project build-data folder of the home directory `home`.
pub fn derived_data_path(home: &str) -> (r: String)
    ensures
        r@ == joined(home@, derived_data_dir()),
{
    crate::path::join_path(home, "Library/Developer/Xcode/DerivedData")
}

/// An application cache folder `name` in the caches folder of the home
/// directory is plausible for its category when a cleanup re-checks it.
pub proof fn lemma_library_cache_plausible(home: Seq<char>, name: Seq<char>)
    requires
        plain_relative(name),
    ensures
        plausible_path(
            joined(joined(home, library_caches_dir()), name),
            ScanCategory::SystemCaches,
            Some(home),
        ),
{
    reveal_strlit("Library/Caches");
    let l = library_caches_dir();
    assert(joined(joined(home, l), name) =~= joined(home, joined(l, name)));
    assert(plain_relative(joined(l, name)));
    lemma_components_prefix_of_joined(l, name);
    lemma_below_location_plausible(home, joined(l, name), ScanCategory::SystemCaches, 0);
}

/// A project's build-data folder `name` in Xcode's build-data folder of the
/// home directory is plausible for its category when a cleanup re-checks it.
pub proof fn lemma_derived_data_plausible(home: Seq<char>, name: Seq<char>)
    requires
        plain_relative(name),
    ensures
        plausible_path(
            joined(joined(home, derived_data_dir()), name),
            ScanCategory::XcodeDerivedData,
            Some(home),
        ),
{
    reveal_strlit("Library/Developer/Xcode/DerivedData");
    let l = derived_data_dir();
    assert(joined(joined(home, l), name) =~= joined(home, joined(l, name)));
    assert(plain_relative(joined(l, name)));
    lemma_components_prefix_of_joined(l, name);
    lemma_below_location_plausible(home, joined(l, name), ScanCategory::XcodeDerivedData, 0);
}

} // verus!
