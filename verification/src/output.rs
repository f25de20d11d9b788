//! Preparation of the output directory, before anything is copied into it.
//!
//! The caller looks at the disk and reports what it found; the plan says what to do.
//! Clearing a directory cannot be undone, so it is planned only where `force` was
//! given, and nothing is ever written into a directory that holds something.

use vstd::prelude::*;
use crate::error::{Failure, PackageError};

verus! {

/// What has to be done to the output directory.
#[derive(Clone, Copy, Debug, PartialEq, Eq, Structural)]
pub enum Preparation {
    /// It does not exist: create it, with all missing ancestors.
    Create,
    /// It exists and is empty: use it as it is.
    Reuse,
    /// It exists and may be cleared: delete it with all it holds, then create it.
    Recreate,
}

/// What a directory holds: `None` where it does not exist, else the names in it.
pub type Listing = Option<Set<Seq<char>>>;

/// Whether a directory with this listing exists.
pub open spec fn exists_in(before: Listing) -> bool {
    before is Some
}

/// Whether a directory with this listing holds at least one entry.
pub open spec fn has_entries_in(before: Listing) -> bool {
    before is Some && before->Some_0 != Set::<Seq<char>>::empty()
}

/// The plan for what was observed, or `None` where the directory must not be touched.
pub open spec fn planned(exists: bool, force: bool, has_entries: bool) -> Option<Preparation> {
    if !exists {
        Some(Preparation::Create)
    } else if force {
        Some(Preparation::Recreate)
    } else if has_entries {
        None
    } else {
        Some(Preparation::Reuse)
    }
}

/// The plan for a directory with the given listing.
pub open spec fn planned_for(before: Listing, force: bool) -> Option<Preparation> {
    planned(exists_in(before), force, has_entries_in(before))
}

/// What the directory holds once the step has been carried out.
pub open spec fn contents_after(before: Listing, step: Preparation) -> Set<Seq<char>> {
    match step {
        Preparation::Create => Set::empty(),
        Preparation::Recreate => Set::empty(),
        Preparation::Reuse => match before {
            Some(names) => names,
            None => Set::empty(),
        },
    }
}

/// Whether carrying out the step deletes anything.
pub open spec fn deletes(step: Preparation) -> bool {
    step == Preparation::Recreate
}

/// Whether the output directory has to be listed before the plan can be made: only
/// a directory that exists and may not be cleared is looked into.
pub fn needs_listing(exists: bool, force: bool) -> (r: bool)
    ensures
        r == (exists && !force),
        !r ==> planned(exists, force, true) == planned(exists, force, false),
{
    exists && !force
}

/// Plans the preparation of the output directory at `output`.
///
/// `exists` says whether the path exists and `has_entries` whether the directory
/// holds at least one entry; the latter is read only where [`needs_listing`] holds.
pub fn plan_preparation(output: &str, exists: bool, force: bool, has_entries: bool) -> (r: Result<
    Preparation,
    PackageError,
>)
    ensures
        match planned(exists, force, has_entries) {
            Some(step) => r == Ok::<Preparation, PackageError>(step),
            None => r is Err && r->Err_0@ == (Failure::OutputNotEmpty { output: output@ }),
        },
{
    if !exists {
        Ok(Preparation::Create)
    } else if force {
        Ok(Preparation::Recreate)
    } else if has_entries {
        Err(PackageError::OutputNotEmpty { output: output.to_owned() })
    } else {
        Ok(Preparation::Reuse)
    }
}

/// A directory that holds something is not prepared without `force`: there is no
/// plan for it, so nothing in it is deleted.
pub proof fn non_empty_output_is_refused(before: Listing)
    requires
        exists_in(before),
        has_entries_in(before),
    ensures
        planned_for(before, false) is None,
{
}

/// With `force` there is always a plan, and the directory is empty once it has been
/// carried out, whatever it held before.
pub proof fn forced_output_ends_empty(before: Listing)
    ensures
        planned_for(before, true) is Some,
        contents_after(before, planned_for(before, true)->Some_0) == Set::<Seq<char>>::empty(),
{
}

/// Whenever there is a plan, the directory is empty once it has been carried out,
/// and only a plan made with `force` deletes.
pub proof fn prepared_output_is_empty(before: Listing, force: bool)
    requires
        planned_for(before, force) is Some,
    ensures
        contents_after(before, planned_for(before, force)->Some_0) == Set::<Seq<char>>::empty(),
        deletes(planned_for(before, force)->Some_0) ==> force,
{
}

} // verus!
