//! The values a scan produces: safety levels, categories and found items.

use vstd::prelude::*;

verus! {

/// How safe an item is to remove.
#[derive(Clone, Copy, Debug, PartialEq, Eq, Structural)]
pub enum SafetyLevel {
    /// Safe to remove, always regenerable; selected for cleanup by default.
    Green,
    /// Probably safe; review before removing.
    Yellow,
    /// Surfaced for awareness only.
    Red,
}

/// The kind of clutter an item belongs to.
#[derive(Clone, Copy, Debug, PartialEq, Eq, Structural)]
pub enum ScanCategory {
    NodeDependencies,
    NodeCaches,
    DockerImages,
    DockerBuildCache,
    XcodeSimulators,
    XcodeDerivedData,
    GradleCache,
    SystemCaches,
    HomebrewCache,
    Trash,
    OldDownloads,
    TimeMachineSnapshots,
    RustTargets,
    CargoCaches,
    PythonCaches,
    PythonVenvs,
    GoCache,
    MavenCache,
    RubyCache,
    DotnetCache,
    FlutterCache,
    CocoaPodsCache,
    ComposerCache,
    IdeCaches,
    XcodeDeviceSupport,
    XcodeArchives,
    BrowserCaches,
    SystemLogs,
    IosBackups,
    Documents,
    AppData,
}

/// The stable key of a category, as stored with audit entries and used in item ids.
pub open spec fn category_key(c: ScanCategory) -> Seq<char> {
    match c {
        ScanCategory::NodeDependencies => "node_dependencies"@,
        ScanCategory::NodeCaches => "node_caches"@,
        ScanCategory::DockerImages => "docker_images"@,
        ScanCategory::DockerBuildCache => "docker_build_cache"@,
        ScanCategory::XcodeSimulators => "xcode_simulators"@,
        ScanCategory::XcodeDerivedData => "xcode_derived_data"@,
        ScanCategory::GradleCache => "gradle_cache"@,
        ScanCategory::SystemCaches => "system_caches"@,
        ScanCategory::HomebrewCache => "homebrew_cache"@,
        ScanCategory::Trash => "trash"@,
        ScanCategory::OldDownloads => "old_downloads"@,
        ScanCategory::TimeMachineSnapshots => "time_machine_snapshots"@,
        ScanCategory::RustTargets => "rust_targets"@,
        ScanCategory::CargoCaches => "cargo_caches"@,
        ScanCategory::PythonCaches => "python_caches"@,
        ScanCategory::PythonVenvs => "python_venvs"@,
        ScanCategory::GoCache => "go_cache"@,
        ScanCategory::MavenCache => "maven_cache"@,
        ScanCategory::RubyCache => "ruby_cache"@,
        ScanCategory::DotnetCache => "dotnet_cache"@,
        ScanCategory::FlutterCache => "flutter_cache"@,
        ScanCategory::CocoaPodsCache => "cocoapods_cache"@,
        ScanCategory::ComposerCache => "composer_cache"@,
        ScanCategory::IdeCaches => "ide_caches"@,
        ScanCategory::XcodeDeviceSupport => "xcode_device_support"@,
        ScanCategory::XcodeArchives => "xcode_archives"@,
        ScanCategory::BrowserCaches => "browser_caches"@,
        ScanCategory::SystemLogs => "system_logs"@,
        ScanCategory::IosBackups => "ios_backups"@,
        ScanCategory::Documents => "documents"@,
        ScanCategory::AppData => "app_data"@,
    }
}

/// The name a category is shown under.
pub open spec fn category_display_name(c: ScanCategory) -> Seq<char> {
    match c {
        ScanCategory::NodeDependencies => "Node.js dependencies"@,
        ScanCategory::NodeCaches => "JavaScript package caches"@,
        ScanCategory::DockerImages => "Docker images"@,
        ScanCategory::DockerBuildCache => "Docker build cache"@,
        ScanCategory::XcodeSimulators => "Xcode simulators"@,
        ScanCategory::XcodeDerivedData => "Xcode DerivedData"@,
        ScanCategory::GradleCache => "Gradle caches"@,
        ScanCategory::SystemCaches => "System caches"@,
        ScanCategory::HomebrewCache => "Homebrew cache"@,
        ScanCategory::Trash => "Trash"@,
        ScanCategory::OldDownloads => "Old downloads"@,
        ScanCategory::TimeMachineSnapshots => "Time Machine snapshots"@,
        ScanCategory::RustTargets => "Rust build artifacts"@,
        ScanCategory::CargoCaches => "Cargo caches"@,
        ScanCategory::PythonCaches => "Python caches"@,
        ScanCategory::PythonVenvs => "Python virtual environments"@,
        ScanCategory::GoCache => "Go caches"@,
        ScanCategory::MavenCache => "Maven repository"@,
        ScanCategory::RubyCache => "Ruby caches"@,
        ScanCategory::DotnetCache => ".NET caches"@,
        ScanCategory::FlutterCache => "Flutter / Dart caches"@,
        ScanCategory::CocoaPodsCache => "CocoaPods cache"@,
        ScanCategory::ComposerCache => "Composer cache"@,
        ScanCategory::IdeCaches => "IDE caches"@,
        ScanCategory::XcodeDeviceSupport => "Xcode device support"@,
        ScanCategory::XcodeArchives => "Xcode archives"@,
        ScanCategory::BrowserCaches => "Browser caches"@,
        ScanCategory::SystemLogs => "System logs"@,
        ScanCategory::IosBackups => "iOS backups"@,
        ScanCategory::Documents => "Documents"@,
        ScanCategory::AppData => "App data"@,
    }
}

/// A plain-language explanation of a category.
pub open spec fn category_description(c: ScanCategory) -> Seq<char> {
    match c {
        ScanCategory::NodeDependencies => "node_modules folders inside your projects"@,
        ScanCategory::NodeCaches => "npm, Yarn and pnpm download caches"@,
        ScanCategory::DockerImages => "Container images not used by any container"@,
        ScanCategory::DockerBuildCache => "Cached layers from building containers"@,
        ScanCategory::XcodeSimulators => "iOS, watchOS and tvOS simulator devices and runtimes"@,
        ScanCategory::XcodeDerivedData => "Xcode build artifacts per project"@,
        ScanCategory::GradleCache => "Gradle build caches and wrapper distributions"@,
        ScanCategory::SystemCaches => "Per-app caches in ~/Library/Caches"@,
        ScanCategory::HomebrewCache => "Downloaded Homebrew package files"@,
        ScanCategory::Trash => "Files deleted but not emptied"@,
        ScanCategory::OldDownloads => "Files in Downloads older than 90 days"@,
        ScanCategory::TimeMachineSnapshots => "Local Time Machine snapshots"@,
        ScanCategory::RustTargets => "target folders of Cargo projects"@,
        ScanCategory::CargoCaches => "Cargo registry and git caches"@,
        ScanCategory::PythonCaches => "pip and conda package caches"@,
        ScanCategory::PythonVenvs => "Python virtual environments"@,
        ScanCategory::GoCache => "Go module and build caches"@,
        ScanCategory::MavenCache => "Downloaded Maven artifacts"@,
        ScanCategory::RubyCache => "Gem and Bundler caches"@,
        ScanCategory::DotnetCache => "NuGet package cache and .NET SDK artifacts"@,
        ScanCategory::FlutterCache => "Pub cache and Flutter tool artifacts"@,
        ScanCategory::CocoaPodsCache => "CocoaPods specs and sources"@,
        ScanCategory::ComposerCache => "Composer download cache"@,
        ScanCategory::IdeCaches => "VS Code, Cursor and JetBrains caches"@,
        ScanCategory::XcodeDeviceSupport => "Debug symbols for connected devices"@,
        ScanCategory::XcodeArchives => "Archived app builds"@,
        ScanCategory::BrowserCaches => "Web browser caches"@,
        ScanCategory::SystemLogs => "Application and diagnostic logs"@,
        ScanCategory::IosBackups => "Local iPhone and iPad backups"@,
        ScanCategory::Documents => "Files you chose in your documents"@,
        ScanCategory::AppData => "Data left behind by applications"@,
    }
}

/// Categories whose items are removed by a dedicated command, not by deleting their path.
pub open spec fn removed_by_command(c: ScanCategory) -> bool {
    match c {
        ScanCategory::DockerImages | ScanCategory::DockerBuildCache | ScanCategory::HomebrewCache
        | ScanCategory::XcodeSimulators | ScanCategory::Trash | ScanCategory::OldDownloads
        | ScanCategory::TimeMachineSnapshots => true,
        _ => false,
    }
}

impl ScanCategory {
    /// The stable key of this category.
    pub fn as_str(&self) -> (r: &'static str)
        ensures
            r@ == category_key(*self),
    {
        match self {
            ScanCategory::NodeDependencies => "node_dependencies",
            ScanCategory::NodeCaches => "node_caches",
            ScanCategory::DockerImages => "docker_images",
            ScanCategory::DockerBuildCache => "docker_build_cache",
            ScanCategory::XcodeSimulators => "xcode_simulators",
            ScanCategory::XcodeDerivedData => "xcode_derived_data",
            ScanCategory::GradleCache => "gradle_cache",
            ScanCategory::SystemCaches => "system_caches",
            ScanCategory::HomebrewCache => "homebrew_cache",
            ScanCategory::Trash => "trash",
            ScanCategory::OldDownloads => "old_downloads",
            ScanCategory::TimeMachineSnapshots => "time_machine_snapshots",
            ScanCategory::RustTargets => "rust_targets",
            ScanCategory::CargoCaches => "cargo_caches",
            ScanCategory::PythonCaches => "python_caches",
            ScanCategory::PythonVenvs => "python_venvs",
            ScanCategory::GoCache => "go_cache",
            ScanCategory::MavenCache => "maven_cache",
            ScanCategory::RubyCache => "ruby_cache",
            ScanCategory::DotnetCache => "dotnet_cache",
            ScanCategory::FlutterCache => "flutter_cache",
            ScanCategory::CocoaPodsCache => "cocoapods_cache",
            ScanCategory::ComposerCache => "composer_cache",
            ScanCategory::IdeCaches => "ide_caches",
            ScanCategory::XcodeDeviceSupport => "xcode_device_support",
            ScanCategory::XcodeArchives => "xcode_archives",
            ScanCategory::BrowserCaches => "browser_caches",
            ScanCategory::SystemLogs => "system_logs",
            ScanCategory::IosBackups => "ios_backups",
            ScanCategory::Documents => "documents",
            ScanCategory::AppData => "app_data",
        }
    }

    /// The name this category is shown under.
    pub fn display_name(&self) -> (r: &'static str)
        ensures
            r@ == category_display_name(*self),
    {
        match self {
            ScanCategory::NodeDependencies => "Node.js dependencies",
            ScanCategory::NodeCaches => "JavaScript package caches",
            ScanCategory::DockerImages => "Docker images",
            ScanCategory::DockerBuildCache => "Docker build cache",
            ScanCategory::XcodeSimulators => "Xcode simulators",
            ScanCategory::XcodeDerivedData => "Xcode DerivedData",
            ScanCategory::GradleCache => "Gradle caches",
            ScanCategory::SystemCaches => "System caches",
            ScanCategory::HomebrewCache => "Homebrew cache",
            ScanCategory::Trash => "Trash",
            ScanCategory::OldDownloads => "Old downloads",
            ScanCategory::TimeMachineSnapshots => "Time Machine snapshots",
            ScanCategory::RustTargets => "Rust build artifacts",
            ScanCategory::CargoCaches => "Cargo caches",
            ScanCategory::PythonCaches => "Python caches",
            ScanCategory::PythonVenvs => "Python virtual environments",
            ScanCategory::GoCache => "Go caches",
            ScanCategory::MavenCache => "Maven repository",
            ScanCategory::RubyCache => "Ruby caches",
            ScanCategory::DotnetCache => ".NET caches",
            ScanCategory::FlutterCache => "Flutter / Dart caches",
            ScanCategory::CocoaPodsCache => "CocoaPods cache",
            ScanCategory::ComposerCache => "Composer cache",
            ScanCategory::IdeCaches => "IDE caches",
            ScanCategory::XcodeDeviceSupport => "Xcode device support",
            ScanCategory::XcodeArchives => "Xcode archives",
            ScanCategory::BrowserCaches => "Browser caches",
            ScanCategory::SystemLogs => "System logs",
            ScanCategory::IosBackups => "iOS backups",
            ScanCategory::Documents => "Documents",
            ScanCategory::AppData => "App data",
        }
    }

    /// A plain-language explanation of this category.
    pub fn description(&self) -> (r: &'static str)
        ensures
            r@ == category_description(*self),
    {
        match self {
            ScanCategory::NodeDependencies => "node_modules folders inside your projects",
            ScanCategory::NodeCaches => "npm, Yarn and pnpm download caches",
            ScanCategory::DockerImages => "Container images not used by any container",
            ScanCategory::DockerBuildCache => "Cached layers from building containers",
            ScanCategory::XcodeSimulators => "iOS, watchOS and tvOS simulator devices and runtimes",
            ScanCategory::XcodeDerivedData => "Xcode build artifacts per project",
            ScanCategory::GradleCache => "Gradle build caches and wrapper distributions",
            ScanCategory::SystemCaches => "Per-app caches in ~/Library/Caches",
            ScanCategory::HomebrewCache => "Downloaded Homebrew package files",
            ScanCategory::Trash => "Files deleted but not emptied",
            ScanCategory::OldDownloads => "Files in Downloads older than 90 days",
            ScanCategory::TimeMachineSnapshots => "Local Time Machine snapshots",
            ScanCategory::RustTargets => "target folders of Cargo projects",
            ScanCategory::CargoCaches => "Cargo registry and git caches",
            ScanCategory::PythonCaches => "pip and conda package caches",
            ScanCategory::PythonVenvs => "Python virtual environments",
            ScanCategory::GoCache => "Go module and build caches",
            ScanCategory::MavenCache => "Downloaded Maven artifacts",
            ScanCategory::RubyCache => "Gem and Bundler caches",
            ScanCategory::DotnetCache => "NuGet package cache and .NET SDK artifacts",
            ScanCategory::FlutterCache => "Pub cache and Flutter tool artifacts",
            ScanCategory::CocoaPodsCache => "CocoaPods specs and sources",
            ScanCategory::ComposerCache => "Composer download cache",
            ScanCategory::IdeCaches => "VS Code, Cursor and JetBrains caches",
            ScanCategory::XcodeDeviceSupport => "Debug symbols for connected devices",
            ScanCategory::XcodeArchives => "Archived app builds",
            ScanCategory::BrowserCaches => "Web browser caches",
            ScanCategory::SystemLogs => "Application and diagnostic logs",
            ScanCategory::IosBackups => "Local iPhone and iPad backups",
            ScanCategory::Documents => "Files you chose in your documents",
            ScanCategory::AppData => "Data left behind by applications",
        }
    }

    /// Items of this category are removed by a dedicated command.
    pub fn is_removed_by_command(&self) -> (r: bool)
        ensures
            r == removed_by_command(*self),
    {
        match self {
            ScanCategory::DockerImages | ScanCategory::DockerBuildCache
            | ScanCategory::HomebrewCache | ScanCategory::XcodeSimulators | ScanCategory::Trash
            | ScanCategory::OldDownloads | ScanCategory::TimeMachineSnapshots => true,
            _ => false,
        }
    }
}

/// A piece of reclaimable storage found by a scan.
#[derive(Debug, PartialEq, Eq)]
pub struct ScanItem {
    pub id: String,
    pub path: String,
    pub display_name: String,
    pub description: String,
    pub size_bytes: u64,
    pub safety: SafetyLevel,
    pub category: ScanCategory,
    pub last_modified: Option<i64>,
}

impl ScanItem {
    /// A field-by-field copy of this item.
    pub fn duplicate(&self) -> (r: ScanItem)
        ensures
            r == *self,
    {
        ScanItem {
            id: self.id.clone(),
            path: self.path.clone(),
            display_name: self.display_name.clone(),
            description: self.description.clone(),
            size_bytes: self.size_bytes,
            safety: self.safety,
            category: self.category,
            last_modified: self.last_modified,
        }
    }
}

} // verus!
