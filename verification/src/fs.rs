//! A snapshot of a file tree, as plain values.
//!
//! The engine never touches the disk itself. Whoever drives it reads a
//! directory into an [`FsNode`] and hands that over; what the engine decides
//! from it comes back as paths and operations to perform.

use crate::errors::{ErrorView, KindView, ProplateError};
use crate::fs::walk::{keys_of, walk_dir_skip, walk_spec, WalkError};
use crate::path::{is_plain_name, join, join_spec};
use vstd::prelude::*;
use vstd::string::*;

pub mod walk;

verus! {

/// What stands at a path.
#[derive(Debug)]
pub enum FsNode {
    /// A file.
    File,
    /// A directory with its entries, in the order in which they were listed.
    Dir(Vec<DirEntry>),
    /// Something that could not be read as a file or listed as a directory.
    Unreadable,
}

/// One entry of a directory. An empty `name` stands for an entry that
/// yielded no valid file name.
#[derive(Debug)]
pub struct DirEntry {
    pub name: String,
    pub node: FsNode,
}

/// One change to the file tree, for whoever drives the engine to perform.
#[derive(Debug)]
pub enum FsOp {
    /// Create the directory `path` and those above it, where absent.
    CreateDirAll { path: String },
    /// Copy the file `from` to `to`, creating the directories above `to`.
    CopyFile { from: String, to: String },
    /// Delete `path` with all that is below it; nothing to do where it is absent.
    Remove { path: String },
    /// Replace the content of the file `path` by `text`.
    WriteText { path: String, text: String },
    /// Delete the directory `path` with all that is below it.
    RemoveDirAll { path: String },
}

/// A change to the file tree, as plain values.
pub enum FsOpView {
    CreateDirAll { path: Seq<char> },
    CopyFile { from: Seq<char>, to: Seq<char> },
    Remove { path: Seq<char> },
    WriteText { path: Seq<char>, text: Seq<char> },
    RemoveDirAll { path: Seq<char> },
}

impl View for FsOp {
    type V = FsOpView;

    open spec fn view(&self) -> FsOpView {
        match self {
            FsOp::CreateDirAll { path } => FsOpView::CreateDirAll { path: path@ },
            FsOp::CopyFile { from, to } => FsOpView::CopyFile { from: from@, to: to@ },
            FsOp::Remove { path } => FsOpView::Remove { path: path@ },
            FsOp::WriteText { path, text } => FsOpView::WriteText { path: path@, text: text@ },
            FsOp::RemoveDirAll { path } => FsOpView::RemoveDirAll { path: path@ },
        }
    }
}

/// The name under which a change is reported when it fails.
pub open spec fn op_name(op: FsOpView) -> Seq<char> {
    match op {
        FsOpView::CreateDirAll { .. } => "create_dir_all"@,
        FsOpView::CopyFile { .. } => "copy"@,
        FsOpView::Remove { .. } => "remove"@,
        FsOpView::WriteText { .. } => "write"@,
        FsOpView::RemoveDirAll { .. } => "remove_dir_all"@,
    }
}

/// The paths that a change concerns.
pub open spec fn op_paths(op: FsOpView) -> Seq<Seq<char>> {
    match op {
        FsOpView::CreateDirAll { path } => seq![path],
        FsOpView::CopyFile { from, to } => seq![from, to],
        FsOpView::Remove { path } => seq![path],
        FsOpView::WriteText { path, .. } => seq![path],
        FsOpView::RemoveDirAll { path } => seq![path],
    }
}

/// The failure of a change: its name, the paths it concerns, and as cause
/// what the one who performed it reported.
pub open spec fn op_failure(op: FsOpView, report: Seq<char>) -> ErrorView {
    ErrorView {
        kind: KindView::Fs { concerned_paths: op_paths(op), operation: op_name(op) },
        cause: Some(report),
        ctx: None,
    }
}

impl FsOp {
    /// A copy of the change.
    pub fn duplicate(&self) -> (copy: FsOp)
        ensures
            copy@ == self@,
    {
        match self {
            FsOp::CreateDirAll { path } => FsOp::CreateDirAll { path: path.clone() },
            FsOp::CopyFile { from, to } => FsOp::CopyFile { from: from.clone(), to: to.clone() },
            FsOp::Remove { path } => FsOp::Remove { path: path.clone() },
            FsOp::WriteText { path, text } => FsOp::WriteText {
                path: path.clone(),
                text: text.clone(),
            },
            FsOp::RemoveDirAll { path } => FsOp::RemoveDirAll { path: path.clone() },
        }
    }

    /// The failure to report where this change could not be performed.
    pub fn failure(&self, report: &str) -> (e: ProplateError)
        ensures
            e@ == op_failure(self@, report@),
    {
        let mut paths: Vec<String> = Vec::new();
        let name = match self {
            FsOp::CreateDirAll { path } => {
                paths.push(path.clone());
                "create_dir_all"
            },
            FsOp::CopyFile { from, to } => {
                paths.push(from.clone());
                paths.push(to.clone());
                "copy"
            },
            FsOp::Remove { path } => {
                paths.push(path.clone());
                "remove"
            },
            FsOp::WriteText { path, .. } => {
                paths.push(path.clone());
                "write"
            },
            FsOp::RemoveDirAll { path } => {
                paths.push(path.clone());
                "remove_dir_all"
            },
        };
        assert(paths.deep_view() =~= op_paths(self@));
        ProplateError::fs(name, paths).with_cause(report)
    }
}

/// The changes that copy the `files` of a walk below `dest`: the creation
/// of `dest`, then one copy per file, to its relative path below `dest`.
pub open spec fn copy_plan(files: Seq<(Seq<char>, Seq<char>)>, dest: Seq<char>) -> Seq<FsOpView> {
    seq![FsOpView::CreateDirAll { path: dest }] + files.map_values(
        |f: (Seq<char>, Seq<char>)| FsOpView::CopyFile { from: f.0, to: join_spec(dest, f.1) },
    )
}

/// The views of changes, in order.
pub open spec fn op_views(ops: Seq<FsOp>) -> Seq<FsOpView> {
    ops.map_values(|op: FsOp| op@)
}

/// Plans the copy of what stands at `entry`, of which `tree` is the
/// snapshot, to `dest`, leaving out what `except` names. Fails where the
/// walk of the tree does.
pub fn copy_fdir(tree: &FsNode, entry: &str, dest: &str, except: Option<Vec<String>>) -> (plan:
    Result<Vec<FsOp>, WalkError>)
    ensures
        match walk_spec(
            *tree,
            entry@,
            Seq::<char>::empty(),
            keys_of(
                match except {
                    Some(paths) => paths.deep_view(),
                    None => Seq::<Seq<char>>::empty(),
                },
            ),
        ) {
            Ok(files) => plan is Ok && op_views(plan->Ok_0@) == copy_plan(files, dest@),
            Err(e) => plan == Err::<Vec<FsOp>, WalkError>(e),
        },
{
    let skip = match except {
        Some(paths) => paths,
        None => {
            let none: Vec<String> = Vec::new();
            assert(none.deep_view() =~= Seq::<Seq<char>>::empty());
            none
        },
    };
    let files = match walk_dir_skip(tree, entry, skip) {
        Ok(files) => files,
        Err(e) => { return Err(e); },
    };
    let mut plan: Vec<FsOp> = Vec::new();
    plan.push(FsOp::CreateDirAll { path: dest.to_owned() });
    let mut i: usize = 0;
    while i < files.len()
        invariant
            i <= files.len(),
            plan@.len() == i + 1,
            plan@[0]@ == (FsOpView::CreateDirAll { path: dest@ }),
            forall|j: int|
                0 <= j < i ==> (#[trigger] plan@[j + 1])@ == (FsOpView::CopyFile {
                    from: files@[j].0@,
                    to: join_spec(dest@, files@[j].1@),
                }),
        decreases files.len() - i,
    {
        let to = join(dest, files[i].1.as_str());
        plan.push(FsOp::CopyFile { from: files[i].0.clone(), to });
        i += 1;
    }
    proof {
        let found = files.deep_view();
        let copies = found.map_values(
            |f: (Seq<char>, Seq<char>)| FsOpView::CopyFile { from: f.0, to: join_spec(dest@, f.1) },
        );
        assert(found.len() == files@.len());
        assert forall|j: int| 0 <= j < found.len() implies op_views(plan@)[j + 1]
            == #[trigger] copies[j] by {
            assert(found[j] == (files@[j].0@, files@[j].1@));
            assert(plan@[j + 1]@ == op_views(plan@)[j + 1]);
        }
        assert(op_views(plan@)[0] == plan@[0]@);
        assert(op_views(plan@) =~= copy_plan(found, dest@));
    }
    Ok(plan)
}

impl FsNode {
    /// Whether every entry of the tree bears a name as a directory listing
    /// gives it.
    pub open spec fn well_formed(self) -> bool
        decreases self,
    {
        match self {
            FsNode::Dir(entries) => forall|i: int|
                0 <= i < entries@.len() ==> is_plain_name((#[trigger] entries@[i]).name@)
                    && entries@[i].node.well_formed(),
            _ => true,
        }
    }
}

} // verus!
