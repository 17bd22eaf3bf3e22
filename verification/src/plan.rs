//! The test plan: named tests, each with an ordered, non-empty list of
//! shell command strings, plus the run-wide configuration.

use vstd::prelude::*;

verus! {

/// One snapshot test: a unique id and the commands run for it, in order.
/// Only the last command's standard output is the snapshot candidate.
pub struct Test {
    pub id: String,
    pub commands: Vec<String>,
}

/// Run-wide configuration: the directory under which snapshot files live,
/// one `<id>.txt` file per test, relative to the plan file's directory.
pub struct Config {
    pub snapshot_directory: String,
}

/// A full test plan: every test of one run, in execution order.
pub struct TestPlan {
    pub tests: Vec<Test>,
    pub config: Config,
}

impl Test {
    /// A test is well-formed when it has at least one command.
    pub open spec fn wf(&self) -> bool {
        self.commands.len() > 0
    }
}

impl TestPlan {
    /// A plan is well-formed when every test in it is.
    pub open spec fn wf(&self) -> bool {
        forall|i: int| 0 <= i < self.tests.len() ==> (#[trigger] self.tests[i]).wf()
    }

    /// Check the plan's invariant — every test has at least one command —
    /// which the loader is expected to have preserved.
    pub fn validate(&self) -> (r: bool)
        ensures
            r == self.wf(),
    {
        let mut i: usize = 0;
        while i < self.tests.len()
            invariant
                i <= self.tests.len(),
                forall|j: int| 0 <= j < i ==> (#[trigger] self.tests[j]).wf(),
            decreases self.tests.len() - i,
        {
            if self.tests[i].commands.len() == 0 {
                assert(!self.tests[i as int].wf());
                return false;
            }
            i = i + 1;
        }
        true
    }
}

} // verus!
