//! Adjusting safety levels: dependencies of a project with uncommitted work
//! are downgraded to review-first (a Red item stays Red).

use vstd::prelude::*;
use crate::model::{SafetyLevel, ScanCategory, ScanItem};

verus! {

/// The note added to an item whose project has uncommitted changes.
pub open spec fn uncommitted_note() -> Seq<char> {
    " (project has uncommitted changes - review before removing)"@
}

/// Whether the project around `item` has to be asked about uncommitted
/// changes: only dependency folders are.
pub open spec fn needs_project_status(item: ScanItem) -> bool {
    item.category == ScanCategory::NodeDependencies
}

/// A level made no safer than review-first.
pub open spec fn downgraded(level: SafetyLevel) -> SafetyLevel {
    if level == SafetyLevel::Red {
        SafetyLevel::Red
    } else {
        SafetyLevel::Yellow
    }
}

/// How far from safe a level is.
pub open spec fn risk_rank(level: SafetyLevel) -> int {
    match level {
        SafetyLevel::Green => 0,
        SafetyLevel::Yellow => 1,
        SafetyLevel::Red => 2,
    }
}

/// `r` is what classifying `item` gives, `dirty` telling whether the item's
/// project has uncommitted changes.
pub open spec fn classified_as(item: ScanItem, dirty: bool, r: ScanItem) -> bool {
    if needs_project_status(item) && dirty {
        &&& r.id == item.id
        &&& r.path == item.path
        &&& r.display_name == item.display_name
        &&& r.description@ == item.description@ + uncommitted_note()
        &&& r.size_bytes == item.size_bytes
        &&& r.safety == downgraded(item.safety)
        &&& r.category == item.category
        &&& r.last_modified == item.last_modified
    } else {
        r == item
    }
}

/// Whether the state of the project around `item` matters to its classification.
pub fn needs_project_check(item: &ScanItem) -> (r: bool)
    ensures
        r == needs_project_status(*item),
        r == (item.category == ScanCategory::NodeDependencies),
{
    item.category == ScanCategory::NodeDependencies
}

/// Classifies one item: a dependency folder whose project has uncommitted
/// changes (`project_dirty`) is downgraded to Yellow (a Red one stays Red),
/// with a note in its description.
pub fn classify_item(item: ScanItem, project_dirty: bool) -> (r: ScanItem)
    ensures
        classified_as(item, project_dirty, r),
        item.category != ScanCategory::NodeDependencies ==> r == item,
        !project_dirty ==> r == item,
        item.category == ScanCategory::NodeDependencies && project_dirty ==> {
            &&& r.safety == (if item.safety == SafetyLevel::Red {
                SafetyLevel::Red
            } else {
                SafetyLevel::Yellow
            })
            &&& r.description@ == item.description@
                + " (project has uncommitted changes - review before removing)"@
        },
{
    let mut item = item;
    if item.category == ScanCategory::NodeDependencies && project_dirty {
        if item.safety != SafetyLevel::Red {
            item.safety = SafetyLevel::Yellow;
        }
        item.description.append(" (project has uncommitted changes - review before removing)");
    }
    item
}

/// The flag for item `i`: false where `flags` says nothing.
pub open spec fn flag_at(flags: Seq<bool>, i: int) -> bool {
    0 <= i < flags.len() && flags[i]
}

/// Classifies every item; `project_dirty[i]` tells whether the project of
/// `items[i]` has uncommitted changes (a missing entry counts as no changes).
pub fn classify_all(items: Vec<ScanItem>, project_dirty: &Vec<bool>) -> (r: Vec<ScanItem>)
    ensures
        r.len() == items.len(),
        forall|i: int|
            0 <= i < items.len() ==> classified_as(
                #[trigger] items@[i],
                flag_at(project_dirty@, i),
                r@[i],
            ),
        forall|i: int|
            0 <= i < items.len() && (#[trigger] items@[i]).category
                != ScanCategory::NodeDependencies ==> r@[i] == items@[i],
{
    let mut out: Vec<ScanItem> = Vec::new();
    let mut i: usize = 0;
    while i < items.len()
        invariant
            i <= items.len(),
            out.len() == i,
            forall|k: int|
                0 <= k < i ==> classified_as(
                    #[trigger] items@[k],
                    flag_at(project_dirty@, k),
                    out@[k],
                ),
        decreases items.len() - i,
    {
        let dirty = i < project_dirty.len() && project_dirty[i];
        let item = items[i].duplicate();
        out.push(classify_item(item, dirty));
        i = i + 1;
    }
    out
}

/// Only dependency folders are ever changed by classification: an item of any
/// other category comes back as it was, whether or not its project has
/// uncommitted changes, and so does any item whose project has none. A
/// dependency folder of a project with uncommitted changes becomes Yellow
/// (Red stays Red) and gets the note added to its description.
pub proof fn lemma_only_dirty_dependencies_change(item: ScanItem, dirty: bool, r: ScanItem)
    requires
        classified_as(item, dirty, r),
    ensures
        item.category != ScanCategory::NodeDependencies ==> r == item,
        !dirty ==> r == item,
        item.category == ScanCategory::NodeDependencies && dirty ==> {
            &&& r.safety == (if item.safety == SafetyLevel::Red {
                SafetyLevel::Red
            } else {
                SafetyLevel::Yellow
            })
            &&& r.description@ == item.description@
                + " (project has uncommitted changes - review before removing)"@
            &&& r.path == item.path
            &&& r.category == item.category
            &&& r.size_bytes == item.size_bytes
        },
{
}

/// Classification never makes an item safer.
pub proof fn lemma_classification_never_upgrades(item: ScanItem, dirty: bool, r: ScanItem)
    requires
        classified_as(item, dirty, r),
    ensures
        risk_rank(r.safety) >= risk_rank(item.safety),
{
}

} // verus!
