//! Cleanup: which stored items a request may remove, how each is removed,
//! and the progress and audit records that removing them produces.

use vstd::prelude::*;
use crate::model::{category_key, removed_by_command, SafetyLevel, ScanCategory, ScanItem};
use crate::plausibility::{home_view, is_path_plausible, plausible_path};
use vstd::string::StringExecFns;

verus! {

/// Whether a cleanup run is still going.
#[derive(Clone, Copy, Debug, PartialEq, Eq, Structural)]
pub enum CleanupStatus {
    InProgress,
    Completed,
}

/// What happened to one item.
#[derive(Debug, PartialEq, Eq)]
pub struct CleanupItemResult {
    pub item_id: String,
    pub path: String,
    pub size_bytes: u64,
    pub success: bool,
    pub error: Option<String>,
}

/// Where a cleanup run stands.
#[derive(Debug, PartialEq, Eq)]
pub struct CleanupProgress {
    pub total_items: usize,
    pub completed_items: usize,
    pub current_item: Option<String>,
    pub bytes_freed: u64,
    pub status: CleanupStatus,
    pub results: Vec<CleanupItemResult>,
}

/// The bytes the successful removals among `results` freed.
pub open spec fn freed_bytes(results: Seq<CleanupItemResult>) -> int
    decreases results.len(),
{
    if results.len() == 0 {
        0
    } else {
        freed_bytes(results.drop_last()) + if results.last().success {
            results.last().size_bytes as int
        } else {
            0
        }
    }
}

/// `r` records the removal of `item` with outcome `outcome`.
pub open spec fn records(r: CleanupItemResult, item: ScanItem, outcome: Result<(), String>) -> bool {
    &&& r.item_id == item.id
    &&& r.path == item.path
    &&& r.size_bytes == item.size_bytes
    &&& r.success == (outcome is Ok)
    &&& r.error == match outcome {
        Ok(_) => None,
        Err(e) => Some(e),
    }
}

impl CleanupProgress {
    /// Every removal recorded is counted, and the bytes freed are those of
    /// the successful removals.
    pub open spec fn well_formed(&self) -> bool {
        &&& self.completed_items == self.results@.len()
        &&& self.bytes_freed == freed_bytes(self.results@)
    }

    /// A run over `total_items` items that has not removed anything yet.
    pub fn start(total_items: usize) -> (r: CleanupProgress)
        ensures
            r.well_formed(),
            r.total_items == total_items,
            r.completed_items == 0,
            r.current_item is None,
            r.bytes_freed == 0,
            r.status == CleanupStatus::InProgress,
            r.results@.len() == 0,
    {
        CleanupProgress {
            total_items,
            completed_items: 0,
            current_item: None,
            bytes_freed: 0,
            status: CleanupStatus::InProgress,
            results: Vec::new(),
        }
    }

    /// Marks `item` as the one being removed.
    pub fn begin_item(&mut self, item: &ScanItem)
        ensures
            final(self).current_item == Some(item.display_name),
            final(self).total_items == old(self).total_items,
            final(self).completed_items == old(self).completed_items,
            final(self).bytes_freed == old(self).bytes_freed,
            final(self).status == old(self).status,
            final(self).results@ == old(self).results@,
    {
        self.current_item = Some(item.display_name.clone());
    }

    /// Records the outcome of removing `item`: one more item done, and its
    /// bytes freed when the removal succeeded.
    pub fn record_outcome(&mut self, item: &ScanItem, outcome: Result<(), String>)
        requires
            old(self).well_formed(),
            old(self).completed_items < usize::MAX,
            outcome is Ok ==> old(self).bytes_freed + item.size_bytes <= u64::MAX,
        ensures
            final(self).well_formed(),
            final(self).completed_items == old(self).completed_items + 1,
            final(self).bytes_freed == old(self).bytes_freed + if outcome is Ok {
                item.size_bytes as int
            } else {
                0
            },
            final(self).results@.len() == old(self).results@.len() + 1,
            final(self).results@.drop_last() == old(self).results@,
            records(final(self).results@.last(), *item, outcome),
            final(self).current_item == old(self).current_item,
            final(self).total_items == old(self).total_items,
            final(self).status == old(self).status,
    {
        let success = outcome.is_ok();
        let error = match outcome {
            Ok(_) => None,
            Err(e) => Some(e),
        };
        if success {
            self.bytes_freed = self.bytes_freed + item.size_bytes;
        }
        self.completed_items = self.completed_items + 1;
        let ghost before = self.results@;
        self.results.push(
            CleanupItemResult {
                item_id: item.id.clone(),
                path: item.path.clone(),
                size_bytes: item.size_bytes,
                success,
                error,
            },
        );
        assert(self.results@.drop_last() =~= before);
    }

    /// Ends the run.
    pub fn finish(&mut self)
        ensures
            final(self).status == CleanupStatus::Completed,
            final(self).current_item is None,
            final(self).total_items == old(self).total_items,
            final(self).completed_items == old(self).completed_items,
            final(self).bytes_freed == old(self).bytes_freed,
            final(self).results@ == old(self).results@,
    {
        self.status = CleanupStatus::Completed;
        self.current_item = None;
    }
}

/// How the items of a category are removed.
#[derive(Clone, Copy, Debug, PartialEq, Eq, Structural)]
pub enum CleanupAction {
    PruneDockerImages,
    PruneDockerBuildCache,
    DeleteSimulators,
    HomebrewCleanup,
    EmptyTrash,
    DeleteOldDownloads,
    DeleteTimeMachineSnapshots,
    /// Delete the item's path, once it has been validated.
    DeletePath,
}

pub open spec fn action_for(c: ScanCategory) -> CleanupAction {
    match c {
        ScanCategory::DockerImages => CleanupAction::PruneDockerImages,
        ScanCategory::DockerBuildCache => CleanupAction::PruneDockerBuildCache,
        ScanCategory::XcodeSimulators => CleanupAction::DeleteSimulators,
        ScanCategory::HomebrewCache => CleanupAction::HomebrewCleanup,
        ScanCategory::Trash => CleanupAction::EmptyTrash,
        ScanCategory::OldDownloads => CleanupAction::DeleteOldDownloads,
        ScanCategory::TimeMachineSnapshots => CleanupAction::DeleteTimeMachineSnapshots,
        _ => CleanupAction::DeletePath,
    }
}

/// How items of `category` are removed: the seven categories with a dedicated
/// command each get their own action, every other category has its path deleted.
pub fn cleanup_action(category: ScanCategory) -> (r: CleanupAction)
    ensures
        r == action_for(category),
        category == ScanCategory::DockerImages ==> r == CleanupAction::PruneDockerImages,
        category == ScanCategory::DockerBuildCache ==> r == CleanupAction::PruneDockerBuildCache,
        category == ScanCategory::XcodeSimulators ==> r == CleanupAction::DeleteSimulators,
        category == ScanCategory::HomebrewCache ==> r == CleanupAction::HomebrewCleanup,
        category == ScanCategory::Trash ==> r == CleanupAction::EmptyTrash,
        category == ScanCategory::OldDownloads ==> r == CleanupAction::DeleteOldDownloads,
        category == ScanCategory::TimeMachineSnapshots ==> r
            == CleanupAction::DeleteTimeMachineSnapshots,
        (r == CleanupAction::DeletePath) == !(category == ScanCategory::DockerImages || category
            == ScanCategory::DockerBuildCache || category == ScanCategory::XcodeSimulators
            || category == ScanCategory::HomebrewCache || category == ScanCategory::Trash
            || category == ScanCategory::OldDownloads || category
            == ScanCategory::TimeMachineSnapshots),
{
    match category {
        ScanCategory::DockerImages => CleanupAction::PruneDockerImages,
        ScanCategory::DockerBuildCache => CleanupAction::PruneDockerBuildCache,
        ScanCategory::XcodeSimulators => CleanupAction::DeleteSimulators,
        ScanCategory::HomebrewCache => CleanupAction::HomebrewCleanup,
        ScanCategory::Trash => CleanupAction::EmptyTrash,
        ScanCategory::OldDownloads => CleanupAction::DeleteOldDownloads,
        ScanCategory::TimeMachineSnapshots => CleanupAction::DeleteTimeMachineSnapshots,
        _ => CleanupAction::DeletePath,
    }
}

/// A category's items have their path deleted exactly when no dedicated command
/// removes them, and those removed by a command are the seven categories
/// Docker images, Docker build cache, Xcode simulators, Homebrew cache, Trash,
/// old downloads and Time Machine snapshots; each of these has an action of its own.
pub proof fn lemma_path_deleted_unless_command(c: ScanCategory)
    ensures
        (action_for(c) == CleanupAction::DeletePath) == !removed_by_command(c),
        removed_by_command(c) == (c == ScanCategory::DockerImages || c
            == ScanCategory::DockerBuildCache || c == ScanCategory::XcodeSimulators || c
            == ScanCategory::HomebrewCache || c == ScanCategory::Trash || c
            == ScanCategory::OldDownloads || c == ScanCategory::TimeMachineSnapshots),
        action_for(ScanCategory::DockerImages) == CleanupAction::PruneDockerImages,
        action_for(ScanCategory::DockerBuildCache) == CleanupAction::PruneDockerBuildCache,
        action_for(ScanCategory::XcodeSimulators) == CleanupAction::DeleteSimulators,
        action_for(ScanCategory::HomebrewCache) == CleanupAction::HomebrewCleanup,
        action_for(ScanCategory::Trash) == CleanupAction::EmptyTrash,
        action_for(ScanCategory::OldDownloads) == CleanupAction::DeleteOldDownloads,
        action_for(ScanCategory::TimeMachineSnapshots)
            == CleanupAction::DeleteTimeMachineSnapshots,
{
}

/// One line of the audit log.
#[derive(Debug, PartialEq, Eq)]
pub struct AuditEntry {
    pub id: i64,
    pub item_path: String,
    pub item_display_name: String,
    pub category: String,
    pub size_bytes: u64,
    pub deleted_at: i64,
    pub success: bool,
    pub error_message: Option<String>,
}

/// The audit line for removing `item` at time `deleted_at` with outcome `outcome`
/// (its id is left 0, for the log to assign).
pub fn audit_entry(item: &ScanItem, outcome: &Result<(), String>, deleted_at: i64) -> (r: AuditEntry)
    ensures
        r.id == 0,
        r.item_path == item.path,
        r.item_display_name == item.display_name,
        r.category@ == category_key(item.category),
        r.size_bytes == item.size_bytes,
        r.deleted_at == deleted_at,
        r.success == (outcome is Ok),
        r.error_message == match outcome {
            Ok(_) => None,
            Err(e) => Some(*e),
        },
{
    AuditEntry {
        id: 0,
        item_path: item.path.clone(),
        item_display_name: item.display_name.clone(),
        category: String::from_str(item.category.as_str()),
        size_bytes: item.size_bytes,
        deleted_at,
        success: outcome.is_ok(),
        error_message: match outcome {
            Ok(_) => None,
            Err(e) => Some(e.clone()),
        },
    }
}

/// Why a cleanup request was refused.
#[derive(Clone, Copy, Debug, PartialEq, Eq, Structural)]
pub enum CleanupRequestError {
    /// None of the requested items may be removed.
    NoEligibleItems,
}

impl CleanupRequestError {
    /// The sentence that explains this refusal.
    pub fn describe(&self) -> (r: &'static str)
        ensures
            r@ == "No eligible items selected for cleanup"@,
    {
        "No eligible items selected for cleanup"
    }
}

/// `item` may be removed on a request for the ids `ids`: it was requested,
/// it is not Red (Red items are shown for awareness only), and its path is
/// plausible for its category.
pub open spec fn eligible(item: ScanItem, ids: Seq<String>, home: Option<Seq<char>>) -> bool {
    &&& exists|j: int| 0 <= j < ids.len() && (#[trigger] ids[j])@ == item.id@
    &&& item.safety != SafetyLevel::Red
    &&& plausible_path(item.path@, item.category, home)
}

/// The items among `items` that a request for `ids` may remove, in order.
pub open spec fn selected(items: Seq<ScanItem>, ids: Seq<String>, home: Option<Seq<char>>) -> Seq<ScanItem> {
    items.filter(|i: ScanItem| eligible(i, ids, home))
}

fn is_requested(ids: &Vec<String>, id: &String) -> (r: bool)
    ensures
        r == exists|j: int| 0 <= j < ids.len() && (#[trigger] ids@[j])@ == id@,
{
    let mut j: usize = 0;
    while j < ids.len()
        invariant
            j <= ids.len(),
            forall|k: int| 0 <= k < j ==> (#[trigger] ids@[k])@ != id@,
        decreases ids.len() - j,
    {
        if ids[j] == *id {
            return true;
        }
        j = j + 1;
    }
    false
}

/// The stored items a cleanup request for the ids `item_ids` may remove, in
/// their stored order: requested, Green or Yellow, and at a path plausible for their
/// category (`home` being the home directory, `None` when unknown). Refused
/// when there is none.
pub fn select_eligible(items: Vec<ScanItem>, item_ids: &Vec<String>, home: Option<&str>) -> (r: Result<Vec<ScanItem>, CleanupRequestError>)
    ensures
        match r {
            Ok(v) => v@ == selected(items@, item_ids@, home_view(home))
                && v@.len() > 0,
            Err(e) => e == CleanupRequestError::NoEligibleItems && selected(items@, item_ids@, home_view(home)).len() == 0,
        },
{
    let ghost pred = |i: ScanItem| eligible(i, item_ids@, home_view(home));
    let mut out: Vec<ScanItem> = Vec::new();
    let mut i: usize = 0;
    assert(items@.take(0) =~= Seq::<ScanItem>::empty());
    proof {
        reveal_with_fuel(Seq::filter, 1);
    }
    while i < items.len()
        invariant
            i <= items.len(),
            pred == (|i: ScanItem| eligible(i, item_ids@, home_view(home))),
            out@ == items@.take(i as int).filter(pred),
        decreases items.len() - i,
    {
        proof {
            reveal_with_fuel(Seq::filter, 1);
            assert(items@.take(i + 1).drop_last() =~= items@.take(i as int));
            assert(items@.take(i + 1).last() == items@[i as int]);
        }
        let item = &items[i];
        if is_requested(item_ids, &item.id) && item.safety != SafetyLevel::Red
            && is_path_plausible(item.path.as_str(), &item.category, home) {
            assert(pred(*item));
            out.push(item.duplicate());
        } else {
            assert(!pred(*item));
        }
        i = i + 1;
    }
    assert(items@.take(i as int) =~= items@);
    if out.len() == 0 {
        return Err(CleanupRequestError::NoEligibleItems);
    }
    Ok(out)
}

/// How old, in seconds, a download must be to count as old: 90 days.
pub const OLD_DOWNLOAD_AGE_SECS: i64 = 7_776_000;

/// The modification time before which a download counts as old, at time `now`.
pub fn download_cutoff(now: i64) -> (r: i64)
    requires
        now >= i64::MIN + OLD_DOWNLOAD_AGE_SECS,
    ensures
        r == now - OLD_DOWNLOAD_AGE_SECS,
{
    now - OLD_DOWNLOAD_AGE_SECS
}

/// Whether a download last modified at `modified` (unknown when `None`) is
/// older than `cutoff`; one whose time is unknown is kept.
pub fn is_old_download(modified: Option<i64>, cutoff: i64) -> (r: bool)
    ensures
        r == (modified matches Some(m) && m < cutoff),
{
    match modified {
        Some(m) => m < cutoff,
        None => false,
    }
}

/// Every item a cleanup request selects was requested, is not Red, and lies
/// at a path plausible for its category.
pub proof fn lemma_selected_items_eligible(items: Seq<ScanItem>, ids: Seq<String>, home: Option<Seq<char>>)
    ensures
        forall|k: int|
            0 <= k < selected(items, ids, home).len() ==> eligible(
                #[trigger] selected(items, ids, home)[k],
                ids,
                home,
            ),
{
    assert forall|k: int|
        0 <= k < selected(items, ids, home).len() implies eligible(
        #[trigger] selected(items, ids, home)[k],
        ids,
        home,
    ) by {
        items.lemma_filter_pred(|i: ScanItem| eligible(i, ids, home), k);
        assert(selected(items, ids, home) == items.filter(|i: ScanItem| eligible(i, ids, home)));
    }
}

} // verus!
