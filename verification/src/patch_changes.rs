//! What a patch does, file by file.

use crate::path::{option_path, FilePath, PathView};
use vstd::prelude::*;

verus! {

/// What a patch does to one file.
#[derive(Debug, PartialEq, Eq)]
pub enum FileChange {
    Add { content: String },
    Delete { content: String },
    Update { unified_diff: String, move_path: Option<FilePath> },
}

/// A change with its texts as characters and its path as units.
pub ghost enum FileChangeView {
    Add { content: Seq<char> },
    Delete { content: Seq<char> },
    Update { unified_diff: Seq<char>, move_path: Option<PathView> },
}

impl View for FileChange {
    type V = FileChangeView;

    open spec fn view(&self) -> FileChangeView {
        match *self {
            FileChange::Add { content } => FileChangeView::Add { content: content@ },
            FileChange::Delete { content } => FileChangeView::Delete { content: content@ },
            FileChange::Update { unified_diff, move_path } => FileChangeView::Update {
                unified_diff: unified_diff@,
                move_path: option_path(move_path),
            },
        }
    }
}

impl Clone for FileChange {
    fn clone(&self) -> (copy: FileChange)
        ensures
            copy@ == self@,
    {
        match self {
            FileChange::Add { content } => FileChange::Add { content: content.clone() },
            FileChange::Delete { content } => FileChange::Delete { content: content.clone() },
            FileChange::Update { unified_diff, move_path } => FileChange::Update {
                unified_diff: unified_diff.clone(),
                move_path: move_path.clone(),
            },
        }
    }
}

/// A file, and what the patch does to it.
#[derive(Debug, PartialEq, Eq)]
pub struct PatchChange {
    pub path: FilePath,
    pub change: FileChange,
}

impl View for PatchChange {
    type V = (PathView, FileChangeView);

    open spec fn view(&self) -> (PathView, FileChangeView) {
        (self.path@, self.change@)
    }
}

impl Clone for PatchChange {
    fn clone(&self) -> (copy: PatchChange)
        ensures
            copy@ == self@,
    {
        PatchChange { path: self.path.clone(), change: self.change.clone() }
    }
}

/// The changes with their texts as characters and their paths as units, each under the number
/// that stands for its file.
pub open spec fn change_views(changes: Map<u64, PatchChange>) -> Map<
    u64,
    (PathView, FileChangeView),
> {
    changes.map_values(|change: PatchChange| change@)
}

/// A change that a view shows is the change that was made: of the same kind, with the same text,
/// and moved to the same path.
pub proof fn view_keeps_the_change(change: FileChange)
    ensures
        match change {
            FileChange::Add { content } => change@ == (FileChangeView::Add { content: content@ }),
            FileChange::Delete { content } => change@ == (FileChangeView::Delete {
                content: content@,
            }),
            FileChange::Update { unified_diff, move_path: None } => change@ == (
            FileChangeView::Update { unified_diff: unified_diff@, move_path: None }),
            FileChange::Update { unified_diff, move_path: Some(path) } => change@ == (
            FileChangeView::Update { unified_diff: unified_diff@, move_path: Some(path@) }),
        },
{
}

/// Changes and their views go one for one: the same numbers, each with the path and the change
/// that stand under it.
pub proof fn change_views_go_one_for_one(
    changes: Map<u64, PatchChange>,
    views: Map<u64, (PathView, FileChangeView)>,
)
    requires
        change_views(changes) == views,
    ensures
        forall|file: u64| #[trigger] views.contains_key(file) == changes.contains_key(file),
        forall|file: u64| #[trigger]
            changes.contains_key(file) ==> views[file].0 == changes[file].path@ && views[file].1
                == changes[file].change@,
{
}

} // verus!
