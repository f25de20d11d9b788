//! The failures of a run, each with the context needed to diagnose it.

use vstd::prelude::*;
use vstd::string::StringExecFns;

verus! {

/// How a mapping declaration deviates from "exactly one key-value pair".
#[derive(Clone, Copy, Debug, PartialEq, Eq, Structural)]
pub enum MappingFault {
    /// The declaration holds no pair at all.
    MissingEntry,
    /// The declaration holds two pairs or more.
    MultipleEntries,
}

/// The kind of a filesystem entry, as far as the copy engine tells kinds apart.
#[derive(Clone, Copy, Debug, PartialEq, Eq, Structural)]
pub enum EntryKind {
    File,
    Directory,
    Symlink,
    Socket,
    Device,
    Fifo,
    Unknown,
}

/// Every failure is fatal to the run; none is retried or downgraded.
#[derive(Clone, Debug, PartialEq, Eq)]
pub enum PackageError {
    /// A mapping declaration that is not a single key-value pair.
    MalformedMapping(MappingFault),
    /// No governing manifest was found from the project root.
    ManifestNotFound,
    /// The output directory holds something and may not be cleared.
    OutputNotEmpty { output: String },
    /// The project root is not inside a version-controlled tree.
    NotVersionControlled { root: String },
    /// The source of a copy is neither a regular file nor a directory.
    UnsupportedEntryType { path: String, kind: EntryKind },
    /// The filesystem refused an operation on `path`, for the given reason.
    Io { path: String, reason: String },
}

/// The mathematical value of a [`PackageError`]: paths are sequences of characters.
pub enum Failure {
    MalformedMapping(MappingFault),
    ManifestNotFound,
    OutputNotEmpty { output: Seq<char> },
    NotVersionControlled { root: Seq<char> },
    UnsupportedEntryType { path: Seq<char>, kind: EntryKind },
    Io { path: Seq<char>, reason: Seq<char> },
}

impl View for PackageError {
    type V = Failure;

    open spec fn view(&self) -> Failure {
        match *self {
            PackageError::MalformedMapping(fault) => Failure::MalformedMapping(fault),
            PackageError::ManifestNotFound => Failure::ManifestNotFound,
            PackageError::OutputNotEmpty { output } => Failure::OutputNotEmpty { output: output@ },
            PackageError::NotVersionControlled { root } => Failure::NotVersionControlled {
                root: root@,
            },
            PackageError::UnsupportedEntryType { path, kind } => Failure::UnsupportedEntryType {
                path: path@,
                kind,
            },
            PackageError::Io { path, reason } => Failure::Io { path: path@, reason: reason@ },
        }
    }
}

/// The reason carried by a malformed mapping.
pub open spec fn fault_text(fault: MappingFault) -> Seq<char> {
    match fault {
        MappingFault::MissingEntry => "missing entry"@,
        MappingFault::MultipleEntries => "multiple entries"@,
    }
}

/// The word by which a message names an entry kind.
pub open spec fn kind_text(kind: EntryKind) -> Seq<char> {
    match kind {
        EntryKind::File => "file"@,
        EntryKind::Directory => "directory"@,
        EntryKind::Symlink => "symlink"@,
        EntryKind::Socket => "socket"@,
        EntryKind::Device => "device"@,
        EntryKind::Fifo => "fifo"@,
        EntryKind::Unknown => "unknown entry"@,
    }
}

/// The line shown to the user for a failure.
pub open spec fn message_text(failure: Failure) -> Seq<char> {
    match failure {
        Failure::MalformedMapping(fault) => fault_text(fault),
        Failure::ManifestNotFound => "no manifest found"@,
        Failure::OutputNotEmpty { output } => "output directory '"@ + output
            + "' already exists and isn't empty"@,
        Failure::NotVersionControlled { root } => "project root '"@ + root
            + "' is not under version control"@,
        Failure::UnsupportedEntryType { path, kind } => "unable to handle "@ + kind_text(kind)
            + " yet ('"@ + path + "')"@,
        Failure::Io { path, reason } => path + ": "@ + reason,
    }
}

impl MappingFault {
    /// The reason, in words.
    pub fn reason(&self) -> (text: &'static str)
        ensures
            text@ == fault_text(*self),
    {
        match self {
            MappingFault::MissingEntry => "missing entry",
            MappingFault::MultipleEntries => "multiple entries",
        }
    }
}

impl EntryKind {
    /// The word by which messages name this kind.
    pub fn name(&self) -> (text: &'static str)
        ensures
            text@ == kind_text(*self),
    {
        match self {
            EntryKind::File => "file",
            EntryKind::Directory => "directory",
            EntryKind::Symlink => "symlink",
            EntryKind::Socket => "socket",
            EntryKind::Device => "device",
            EntryKind::Fifo => "fifo",
            EntryKind::Unknown => "unknown entry",
        }
    }
}

impl PackageError {
    /// The message of this failure, with the offending path where there is one.
    pub fn message(&self) -> (text: String)
        ensures
            text@ == message_text(self@),
    {
        match self {
            PackageError::MalformedMapping(fault) => String::from_str(fault.reason()),
            PackageError::ManifestNotFound => String::from_str("no manifest found"),
            PackageError::OutputNotEmpty { output } => {
                let mut text = String::from_str("output directory '");
                text.append(output.as_str());
                text.append("' already exists and isn't empty");
                text
            },
            PackageError::NotVersionControlled { root } => {
                let mut text = String::from_str("project root '");
                text.append(root.as_str());
                text.append("' is not under version control");
                text
            },
            PackageError::UnsupportedEntryType { path, kind } => {
                let mut text = String::from_str("unable to handle ");
                text.append(kind.name());
                text.append(" yet ('");
                text.append(path.as_str());
                text.append("')");
                text
            },
            PackageError::Io { path, reason } => {
                let mut text = path.clone();
                text.append(": ");
                text.append(reason.as_str());
                text
            },
        }
    }
}

/// The manifest that was found, or the failure that none was.
pub fn require_manifest<M>(found: Option<M>) -> (r: Result<M, PackageError>)
    ensures
        match found {
            Some(manifest) => r == Ok::<M, PackageError>(manifest),
            None => r is Err && r->Err_0@ == Failure::ManifestNotFound,
        },
{
    match found {
        Some(manifest) => Ok(manifest),
        None => Err(PackageError::ManifestNotFound),
    }
}

} // verus!
