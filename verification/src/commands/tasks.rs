//! The sub-commands for the list of tasks.

use vstd::prelude::*;

verus! {

/// What can be done with the list of tasks.
#[derive(Clone, Copy, Debug, PartialEq, Eq, Structural)]
pub enum TaskOptions {
    /// Add a task.
    Add,
    /// Remove a task.
    Remove,
    /// List the tasks that are still to do.
    List,
    /// Mark a task as completed.
    Complete,
}

impl TaskOptions {
    /// The word by which the sub-command is called.
    pub open spec fn spec_name(self) -> Seq<char> {
        match self {
            TaskOptions::Add => "add"@,
            TaskOptions::Remove => "rm"@,
            TaskOptions::List => "ls"@,
            TaskOptions::Complete => "finish"@,
        }
    }

    pub fn name(&self) -> (text: &'static str)
        ensures
            text@ == self.spec_name(),
    {
        match self {
            TaskOptions::Add => "add",
            TaskOptions::Remove => "rm",
            TaskOptions::List => "ls",
            TaskOptions::Complete => "finish",
        }
    }
}

} // verus!
