//! The copy engine: one resolved pair of paths, copied without recursing.
//!
//! A copy is planned as a list of filesystem actions, to be carried out in order by
//! the caller, who announces the task with [`progress_line`] before it starts.

use vstd::prelude::*;
use vstd::string::{StrSliceExecFns, StringExecFns};
use crate::error::{EntryKind, Failure, PackageError};
use crate::mapping::Pair;
use crate::paths;
use crate::paths::parent_of;

verus! {

/// The column at which the arrow of a progress line stands, where the source fits.
pub const PROGRESS_WIDTH: usize = 40;

/// A resolved pair of paths: copy what is at `from` to `to`.
#[derive(Clone, Debug, PartialEq, Eq)]
pub struct CopyTask {
    pub from: String,
    pub to: String,
}

/// One action on the filesystem.
#[derive(Clone, Debug, PartialEq, Eq)]
pub enum FsAction {
    /// Create the directory at `path` and all its missing ancestors.
    CreateDirAll { path: String },
    /// Copy the file at `from` to `to`, replacing what is there.
    CopyFile { from: String, to: String },
}

/// The mathematical value of an [`FsAction`].
pub enum Step {
    CreateDirAll { path: Seq<char> },
    CopyFile { from: Seq<char>, to: Seq<char> },
}

impl View for CopyTask {
    type V = Pair;

    open spec fn view(&self) -> Pair {
        (self.from@, self.to@)
    }
}

impl View for FsAction {
    type V = Step;

    open spec fn view(&self) -> Step {
        match *self {
            FsAction::CreateDirAll { path } => Step::CreateDirAll { path: path@ },
            FsAction::CopyFile { from, to } => Step::CopyFile { from: from@, to: to@ },
        }
    }
}

/// The actions of a list as mathematical values.
pub open spec fn steps_of(actions: Seq<FsAction>) -> Seq<Step> {
    Seq::new(actions.len(), |i: int| actions[i]@)
}

/// The path held by an optional string.
pub open spec fn path_of(path: Option<String>) -> Option<Seq<char>> {
    match path {
        Some(p) => Some(p@),
        None => None,
    }
}

/// What copying an entry of the given kind takes, where `parent` is the parent of
/// the destination: a file is copied into its parent directory, which is created
/// first; a directory is created and nothing of its contents is copied; anything
/// else is refused.
pub open spec fn shallow_copy(
    from: Seq<char>,
    to: Seq<char>,
    kind: EntryKind,
    parent: Option<Seq<char>>,
) -> Result<Seq<Step>, Failure> {
    match kind {
        EntryKind::File => match parent {
            Some(up) => Ok(seq![Step::CreateDirAll { path: up }, Step::CopyFile { from, to }]),
            None => Ok(seq![Step::CopyFile { from, to }]),
        },
        EntryKind::Directory => Ok(seq![Step::CreateDirAll { path: to }]),
        _ => Err(Failure::UnsupportedEntryType { path: from, kind }),
    }
}

/// `text`, followed by as many spaces as it takes to fill `width` characters.
pub open spec fn padded(text: Seq<char>, width: nat) -> Seq<char> {
    text + Seq::new((if text.len() < width { width - text.len() } else { 0 }) as nat, |i: int| ' ')
}

/// The line that announces a task: the source, filled up to the arrow's column,
/// the arrow, the destination.
pub open spec fn progress_text(from: Seq<char>, to: Seq<char>) -> Seq<char> {
    padded(from, PROGRESS_WIDTH as nat) + " -> "@ + to
}

/// The line that announces the copy of `from` to `to`.
pub fn progress_line(from: &str, to: &str) -> (line: String)
    ensures
        line@ == progress_text(from@, to@),
{
    let mut line = String::from_str(from);
    let mut filled: usize = from.unicode_len();
    while filled < PROGRESS_WIDTH
        invariant
            from@.len() <= filled,
            filled <= PROGRESS_WIDTH || filled == from@.len(),
            line@ == from@ + Seq::new((filled - from@.len()) as nat, |i: int| ' '),
        decreases PROGRESS_WIDTH - filled,
    {
        proof {
            reveal_strlit(" ");
        }
        line.append(" ");
        filled += 1;
        assert(line@ =~= from@ + Seq::new((filled - from@.len()) as nat, |i: int| ' '));
    }
    assert(line@ =~= padded(from@, PROGRESS_WIDTH as nat));
    line.append(" -> ");
    line.append(to);
    line
}

/// Plans the copy of one entry, given the parent of its destination.
pub fn actions_for(from: &str, to: &str, kind: EntryKind, parent: Option<String>) -> (r: Result<
    Vec<FsAction>,
    PackageError,
>)
    ensures
        match shallow_copy(from@, to@, kind, path_of(parent)) {
            Ok(steps) => r is Ok && steps_of(r->Ok_0@) == steps,
            Err(failure) => r is Err && r->Err_0@ == failure,
        },
{
    let mut actions: Vec<FsAction> = Vec::new();
    match kind {
        EntryKind::File => {
            match parent {
                Some(up) => {
                    actions.push(FsAction::CreateDirAll { path: up });
                    actions.push(FsAction::CopyFile { from: from.to_owned(), to: to.to_owned() });
                },
                None => {
                    actions.push(FsAction::CopyFile { from: from.to_owned(), to: to.to_owned() });
                },
            }
            assert(steps_of(actions@) =~= shallow_copy(from@, to@, kind, path_of(parent))->Ok_0);
            Ok(actions)
        },
        EntryKind::Directory => {
            actions.push(FsAction::CreateDirAll { path: to.to_owned() });
            assert(steps_of(actions@) =~= shallow_copy(from@, to@, kind, path_of(parent))->Ok_0);
            Ok(actions)
        },
        _ => Err(PackageError::UnsupportedEntryType { path: from.to_owned(), kind }),
    }
}

/// Plans the copy of the entry at `from`, which is of the given kind, to `to`.
///
/// A file goes into the parent directory of `to`, as the standard library finds it.
pub fn copy_entry_shallow(from: &str, to: &str, kind: EntryKind) -> (r: Result<
    Vec<FsAction>,
    PackageError,
>)
    ensures
        match shallow_copy(from@, to@, kind, parent_of(to@)) {
            Ok(steps) => r is Ok && steps_of(r->Ok_0@) == steps,
            Err(failure) => r is Err && r->Err_0@ == failure,
        },
{
    let parent = match kind {
        EntryKind::File => paths::parent(to),
        _ => None,
    };
    actions_for(from, to, kind, parent)
}

} // verus!
