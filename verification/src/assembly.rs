//! The run context, the explicit mapper and the decisions of the tree walk.
//!
//! One run works on one project root and one output directory. Both are fixed when
//! the run starts and handed by reference to whatever needs them: to the explicit
//! mapper, which resolves the declared mappings in declaration order, and to the
//! walk, which forwards every file that it is shown and skips the directories.

use vstd::prelude::*;
use crate::copy::CopyTask;
use crate::error::{EntryKind, Failure, PackageError};
use crate::mapping::{ManifestConfig, Pair};
use crate::paths;
use crate::paths::{joined, stripped};

verus! {

/// The name of the manifest section that configures the assembly.
pub const CONFIG_SECTION: &'static str = "alabaster";

/// The name of the project-specific ignore file, recognised in every directory.
pub const IGNORE_FILE_NAME: &'static str = ".alabasterignore";

/// A path that the walk came upon, with its kind.
#[derive(Clone, Debug, PartialEq, Eq)]
pub struct WalkEntry {
    pub path: String,
    pub kind: EntryKind,
}

/// How the tree is to be walked.
#[derive(Clone, Debug, PartialEq, Eq)]
pub struct WalkSettings {
    /// The ignore rules of the repository apply only inside a repository.
    pub require_git: bool,
    /// A file of this name, in any directory, adds ignore rules of its own.
    pub custom_ignore_filename: String,
    /// Whether the generic ignore files of other tools are read.
    pub generic_ignore_files: bool,
}

/// What the walk does with an entry.
#[derive(Clone, Debug, PartialEq, Eq)]
pub enum Visit {
    /// A directory: nothing is copied for it; copying files into it creates it.
    Skip,
    /// Anything else under the root: it is handed to the copy engine.
    Copy(CopyTask),
    /// The entry does not lie under the project root.
    Outside,
}

/// The context of one run: the project root and the output directory.
#[derive(Clone, Debug, PartialEq, Eq)]
pub struct Assembly {
    root: String,
    output: String,
}

/// The tasks of a list as mathematical values.
pub open spec fn tasks_of(tasks: Seq<CopyTask>) -> Seq<Pair> {
    Seq::new(tasks.len(), |i: int| tasks[i]@)
}

/// The mappings that a run has to apply: those of the section, none without one.
pub open spec fn declared(config: Option<&ManifestConfig>) -> Seq<Pair> {
    match config {
        Some(section) => section@,
        None => Seq::empty(),
    }
}

/// The tasks of the explicit mapper: each mapping in declaration order, its source
/// resolved against the root and its destination against the output directory.
pub open spec fn explicit_plan(root: Seq<char>, output: Seq<char>, pairs: Seq<Pair>) -> Seq<Pair> {
    Seq::new(pairs.len(), |i: int| (joined(root, pairs[i].0), joined(output, pairs[i].1)))
}

/// The task of the walk for an entry that lies under the root: none for a directory;
/// for anything else, the entry itself to the same relative place in the output.
pub open spec fn walk_plan(
    root: Seq<char>,
    output: Seq<char>,
    path: Seq<char>,
    kind: EntryKind,
) -> Option<Pair> {
    if kind == EntryKind::Directory {
        None
    } else {
        Some((path, joined(output, stripped(path, root)->Some_0)))
    }
}

/// How the tree is walked: inside a repository only, with the project's own ignore
/// file beside the repository's rules, and without the generic ignore files.
pub fn walk_settings() -> (settings: WalkSettings)
    ensures
        settings.require_git,
        settings.custom_ignore_filename@ == IGNORE_FILE_NAME@,
        !settings.generic_ignore_files,
{
    WalkSettings {
        require_git: true,
        custom_ignore_filename: IGNORE_FILE_NAME.to_owned(),
        generic_ignore_files: false,
    }
}

/// Whether the walk takes up an entry, given whether the entry is the output
/// directory itself, by identity and under whatever spelling: the output directory
/// is the one entry that is turned away. A walk that does not descend into what was
/// turned away then never comes upon anything below it.
pub fn admits(same_as_output: bool) -> (r: bool)
    ensures
        r == !same_as_output,
{
    !same_as_output
}

impl Assembly {
    /// The project root as a mathematical value.
    pub closed spec fn root_path(&self) -> Seq<char> {
        self.root@
    }

    /// The output directory as a mathematical value.
    pub closed spec fn output_path(&self) -> Seq<char> {
        self.output@
    }

    /// The context of a run on `root` that assembles into `output`.
    pub fn new(root: String, output: String) -> (run: Assembly)
        ensures
            run.root_path() == root@,
            run.output_path() == output@,
    {
        Assembly { root, output }
    }

    /// The project root.
    pub fn root(&self) -> (path: &str)
        ensures
            path@ == self.root_path(),
    {
        self.root.as_str()
    }

    /// The output directory.
    pub fn output(&self) -> (path: &str)
        ensures
            path@ == self.output_path(),
    {
        self.output.as_str()
    }

    /// The walk starts only inside a version-controlled tree.
    pub fn require_version_control(&self, versioned: bool) -> (r: Result<(), PackageError>)
        ensures
            versioned ==> r is Ok,
            !versioned ==> r is Err && r->Err_0@ == (Failure::NotVersionControlled {
                root: self.root_path(),
            }),
    {
        if versioned {
            Ok(())
        } else {
            Err(PackageError::NotVersionControlled { root: self.root.clone() })
        }
    }

    /// The task that copies `from` to the place `relative` in the output directory.
    pub fn place(&self, from: &str, relative: &str) -> (task: CopyTask)
        ensures
            task@ == (from@, joined(self.output_path(), relative@)),
    {
        CopyTask { from: from.to_owned(), to: paths::join(self.output.as_str(), relative) }
    }

    /// The tasks of the declared mappings, in declaration order.
    pub fn explicit_tasks(&self, config: Option<&ManifestConfig>) -> (tasks: Vec<CopyTask>)
        ensures
            tasks_of(tasks@) == explicit_plan(
                self.root_path(),
                self.output_path(),
                declared(config),
            ),
    {
        let mut tasks: Vec<CopyTask> = Vec::new();
        match config {
            None => {
                assert(tasks_of(tasks@) =~= explicit_plan(
                    self.root_path(),
                    self.output_path(),
                    declared(config),
                ));
            },
            Some(section) => {
                let mut i: usize = 0;
                while i < section.map.len()
                    invariant
                        i <= section.map.len(),
                        tasks_of(tasks@) == explicit_plan(
                            self.root_path(),
                            self.output_path(),
                            section@.take(i as int),
                        ),
                    decreases section.map.len() - i,
                {
                    let ghost before = tasks_of(tasks@);
                    let mapping = &section.map[i];
                    let from = paths::join(self.root.as_str(), mapping.from.as_str());
                    let task = self.place(from.as_str(), mapping.to.as_str());
                    tasks.push(task);
                    assert(tasks_of(tasks@) =~= before.push(task@));
                    assert(tasks_of(tasks@) =~= explicit_plan(
                        self.root_path(),
                        self.output_path(),
                        section@.take(i + 1),
                    ));
                    i += 1;
                }
                assert(section@.take(i as int) =~= section@);
            },
        }
        tasks
    }

    /// What the walk does with an entry: a directory is skipped, anything else under
    /// the root is copied to the same relative place in the output directory.
    pub fn visit(&self, entry: &WalkEntry) -> (step: Visit)
        ensures
            entry.kind == EntryKind::Directory ==> step is Skip,
            entry.kind != EntryKind::Directory && stripped(entry.path@, self.root_path()) is None
                ==> step is Outside,
            entry.kind != EntryKind::Directory && stripped(entry.path@, self.root_path()) is Some
                ==> step is Copy && Some(step->Copy_0@) == walk_plan(
                self.root_path(),
                self.output_path(),
                entry.path@,
                entry.kind,
            ),
    {
        match entry.kind {
            EntryKind::Directory => Visit::Skip,
            _ => match paths::strip_prefix(entry.path.as_str(), self.root.as_str()) {
                None => Visit::Outside,
                Some(relative) => Visit::Copy(self.place(entry.path.as_str(), relative.as_str())),
            },
        }
    }
}

} // verus!
