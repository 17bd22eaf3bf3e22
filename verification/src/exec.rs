//! The execution phase: run every test's commands strictly in order,
//! keeping only the last command's standard output as the test's snapshot
//! candidate. A command that exits non-zero aborts the whole run at once
//! (fail-fast), with exit status 1.
//!
//! Spawning processes is the caller's work; this module decides, step by
//! step, which command runs next and what each result means.

use vstd::prelude::*;
use crate::plan::TestPlan;
use crate::record::Record;

verus! {

/// What one spawned command produced: its captured standard output and
/// standard error, and whether it exited with status zero.
pub struct CommandResult {
    pub stdout: String,
    pub stderr: String,
    pub success: bool,
}

/// The execution phase's cursor over the plan: the test and the command
/// within it that run next, and the record of every finished test.
pub struct ExecPhase {
    pub test_idx: usize,
    pub cmd_idx: usize,
    pub record: Record,
}

impl ExecPhase {
    /// The cursor points at a command of the plan, or one past its tests;
    /// every finished test already has its entry in the record.
    pub open spec fn wf(&self, plan: &TestPlan) -> bool {
        &&& self.test_idx <= plan.tests.len()
        &&& (self.test_idx < plan.tests.len() ==> self.cmd_idx
            < plan.tests[self.test_idx as int].commands.len())
        &&& (self.test_idx == plan.tests.len() ==> self.cmd_idx == 0)
        &&& forall|i: int|
            0 <= i < self.test_idx ==> self.record@.dom().contains(
                (#[trigger] plan.tests[i]).id@,
            )
    }

    /// All tests of the plan have been executed.
    pub open spec fn done(&self, plan: &TestPlan) -> bool {
        self.test_idx == plan.tests.len()
    }

    /// Start the execution phase at the plan's first command, with an
    /// empty record.
    pub fn begin(plan: &TestPlan) -> (s: ExecPhase)
        requires
            plan.wf(),
        ensures
            s.wf(plan),
            s.test_idx == 0 && s.cmd_idx == 0,
            s.record@ == Map::<Seq<char>, Seq<char>>::empty(),
            s.done(plan) <==> plan.tests.len() == 0,
    {
        ExecPhase { test_idx: 0, cmd_idx: 0, record: Record::new() }
    }

    /// Whether any command is left to run.
    pub fn is_done(&self, plan: &TestPlan) -> (r: bool)
        requires
            self.wf(plan),
        ensures
            r == self.done(plan),
    {
        self.test_idx == plan.tests.len()
    }

    /// The command string to tokenize and spawn next.
    pub fn next_command<'a>(&self, plan: &'a TestPlan) -> (cmd: &'a String)
        requires
            self.wf(plan),
            !self.done(plan),
        ensures
            cmd@ == plan.tests[self.test_idx as int].commands[self.cmd_idx as int]@,
    {
        &plan.tests[self.test_idx].commands[self.cmd_idx]
    }

    /// Take in what the spawned command produced. A non-zero exit is fatal:
    /// nothing is recorded and the caller must abort the whole run with
    /// exit status 1. On success, the command's standard output becomes the
    /// test's snapshot candidate, overwriting any earlier command's output;
    /// after the test's last command the candidate is recorded under the
    /// test's id and the cursor moves to the next test.
    pub fn feed(&mut self, plan: &TestPlan, result: CommandResult) -> (fatal: bool)
        requires
            plan.wf(),
            old(self).wf(plan),
            !old(self).done(plan),
        ensures
            final(self).wf(plan),
            fatal == !result.success,
            fatal ==> *final(self) == *old(self),
            !fatal ==> {
                let t = old(self).test_idx as int;
                let last = old(self).cmd_idx + 1 == plan.tests[t].commands.len();
                &&& (last ==> {
                    &&& final(self).test_idx == t + 1
                    &&& final(self).cmd_idx == 0
                    &&& final(self).record@ == old(self).record@.insert(
                        plan.tests[t].id@,
                        result.stdout@,
                    )
                })
                &&& (!last ==> {
                    &&& final(self).test_idx == t
                    &&& final(self).cmd_idx == old(self).cmd_idx + 1
                    &&& final(self).record@ == old(self).record@
                })
            },
    {
        if !result.success {
            return true;
        }
        let test = &plan.tests[self.test_idx];
        if self.cmd_idx + 1 == test.commands.len() {
            self.record.insert(test.id.clone(), result.stdout);
            self.test_idx = self.test_idx + 1;
            self.cmd_idx = 0;
        } else {
            self.cmd_idx = self.cmd_idx + 1;
        }
        false
    }
}

/// Once the execution phase is done, every test of the plan has exactly
/// one captured output in the record, keyed by its id: no comparison can
/// then hit the missing-output failure.
pub proof fn lemma_execution_covers_plan(phase: &ExecPhase, plan: &TestPlan, i: int)
    requires
        phase.wf(plan),
        phase.done(plan),
        0 <= i < plan.tests.len(),
    ensures
        phase.record@.dom().contains(plan.tests[i].id@),
{
}

} // verus!
