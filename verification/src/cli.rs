//! The command surface: what the user asked for, as plain values.

use vstd::prelude::*;

verus! {

/// The arguments of one invocation.
#[derive(Clone, Debug, PartialEq, Eq)]
pub struct Args {
    /// The project root, where it was given; else the working directory is taken.
    pub root: Option<String>,
    pub cmd: Command,
}

/// What to do with the project.
#[derive(Clone, Debug, PartialEq, Eq)]
pub enum Command {
    /// Assemble the project into `output`; `force` allows clearing it first.
    Package { force: bool, output: String },
}

impl Args {
    /// The root to work on: the one given, else the working directory `cwd`.
    pub fn project_root(&self, cwd: &str) -> (root: String)
        ensures
            root@ == match self.root {
                Some(given) => given@,
                None => cwd@,
            },
    {
        match &self.root {
            Some(given) => given.clone(),
            None => cwd.to_owned(),
        }
    }
}

} // verus!
