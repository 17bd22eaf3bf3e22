//! The comparison and update phase: for each test of the plan, in order,
//! compare its captured output against the stored snapshot, record the
//! outcome, and — in update mode — hand the caller the new snapshot content
//! to write. Unlike execution, this phase never stops on a mismatch: every
//! test is compared, then a summary and an exit status are drawn.

use vstd::prelude::*;
use vstd::string::StringExecFns;
use crate::outcome::Outcome;
use crate::outcome::outcome_of;
use crate::plan::TestPlan;
use crate::record::Record;

verus! {

/// What the stored snapshot holds once one test's comparison step is over:
/// update mode overwrites it with the captured output, otherwise it keeps
/// its old content.
pub open spec fn snapshot_after(update: bool, old_snapshot: Seq<char>, new_output: Seq<char>) -> Seq<
    char,
> {
    if update {
        new_output
    } else {
        old_snapshot
    }
}

/// Update mode overwrites every compared test's snapshot with that test's
/// captured output, whether the comparison matched or mismatched.
pub proof fn lemma_update_overwrites(old_snapshot: Seq<char>, new_output: Seq<char>)
    ensures
        snapshot_after(true, old_snapshot, new_output) == new_output,
        snapshot_after(false, old_snapshot, new_output) == old_snapshot,
{
}

/// A run in update mode stores the captured output; a later run whose
/// captured output is the same — deterministic commands — matches.
pub proof fn lemma_update_then_match(old_snapshot: Seq<char>, new_output: Seq<char>)
    ensures
        outcome_of(snapshot_after(true, old_snapshot, new_output), new_output)
            == Outcome::Matched,
{
}

/// The snapshot file's name for a test id: `<id>.txt`, looked up and
/// written under the plan's snapshot directory. The file's entire content
/// is the expected captured output; there is no header or metadata.
pub fn snapshot_file_name(id: &String) -> (name: String)
    ensures
        name@ == id@ + ".txt"@,
{
    let mut name = id.clone();
    name.append(".txt");
    name
}

/// What one comparison step tells the caller: the test's outcome; the
/// captured output, for the mismatch report; and whether the caller must
/// now store that output as the test's snapshot — a failure to do so is
/// fatal with exit status 1. An outcome of `MissingCapturedOutput` stops
/// the run at once, and `write` is never set for it.
pub struct TestReport {
    pub outcome: Outcome,
    pub new_output: String,
    pub write: bool,
}

/// The comparison phase's progress: the next test to compare, the ids that
/// passed and failed so far, and whether any test mismatched.
pub struct ComparePhase {
    pub next_test: usize,
    pub passed: Vec<String>,
    pub failed: Vec<String>,
    pub any_mismatch: bool,
}

impl ComparePhase {
    /// Every earlier test went to exactly one of the two lists, and a
    /// mismatch is remembered exactly when some test failed.
    pub open spec fn wf(&self, plan: &TestPlan) -> bool {
        &&& self.next_test <= plan.tests.len()
        &&& self.passed@.len() + self.failed@.len() == self.next_test
        &&& (self.any_mismatch <==> self.failed@.len() > 0)
    }

    /// All tests of the plan have been compared.
    pub open spec fn done(&self, plan: &TestPlan) -> bool {
        self.next_test == plan.tests.len()
    }

    /// Start the comparison phase at the plan's first test.
    pub fn begin(plan: &TestPlan) -> (s: ComparePhase)
        ensures
            s.wf(plan),
            s.next_test == 0,
            s.passed@ =~= Seq::<String>::empty(),
            s.failed@ =~= Seq::<String>::empty(),
            !s.any_mismatch,
            s.done(plan) <==> plan.tests.len() == 0,
    {
        ComparePhase { next_test: 0, passed: Vec::new(), failed: Vec::new(), any_mismatch: false }
    }

    /// Whether any test is left to compare.
    pub fn is_done(&self, plan: &TestPlan) -> (r: bool)
        requires
            self.wf(plan),
        ensures
            r == self.done(plan),
    {
        self.next_test == plan.tests.len()
    }

    /// The id of the test compared next, for the caller to announce and to
    /// locate the snapshot file `<snapshot_directory>/<id>.txt`.
    pub fn next_id<'a>(&self, plan: &'a TestPlan) -> (id: &'a String)
        requires
            self.wf(plan),
            !self.done(plan),
        ensures
            id@ == plan.tests[self.next_test as int].id@,
    {
        &plan.tests[self.next_test].id
    }

    /// Compare the next test: its captured output, looked up in the record
    /// by id, against `old_snapshot`, the stored snapshot's content — the
    /// empty string where no snapshot file exists. A missing record entry
    /// stops the run at once and changes nothing. Otherwise the outcome is
    /// exact comparison, the id joins the passed or failed list, and in
    /// update mode the caller is told to store the captured output,
    /// matched or not.
    pub fn compare_next(
        &mut self,
        plan: &TestPlan,
        record: &Record,
        old_snapshot: &String,
        update: bool,
    ) -> (r: TestReport)
        requires
            old(self).wf(plan),
            !old(self).done(plan),
        ensures
            final(self).wf(plan),
            !record@.dom().contains(plan.tests[old(self).next_test as int].id@) ==> (r.outcome
                == Outcome::MissingCapturedOutput && !r.write && *final(self) == *old(self)),
            record@.dom().contains(plan.tests[old(self).next_test as int].id@) ==> {
                let id = plan.tests[old(self).next_test as int].id;
                let new_out = record@[id@];
                let oc = outcome_of(old_snapshot@, new_out);
                &&& final(self).next_test == old(self).next_test + 1
                &&& r.outcome == oc
                &&& r.new_output@ == new_out
                &&& r.write == update
                &&& snapshot_after(update, old_snapshot@, new_out) == (if r.write {
                    r.new_output@
                } else {
                    old_snapshot@
                })
                &&& (oc == Outcome::Matched ==> final(self).passed@ == old(self).passed@.push(id)
                    && final(self).failed@ == old(self).failed@ && final(self).any_mismatch == old(
                    self,
                ).any_mismatch)
                &&& (oc == Outcome::Mismatched ==> final(self).failed@ == old(self).failed@.push(
                    id,
                ) && final(self).passed@ == old(self).passed@ && final(self).any_mismatch)
            },
    {
        let test = &plan.tests[self.next_test];
        let new_output = match record.get(&test.id) {
            Some(output) => output.clone(),
            None => {
                return TestReport {
                    outcome: Outcome::MissingCapturedOutput,
                    new_output: String::new(),
                    write: false,
                };
            },
        };
        let outcome = crate::outcome::classify(old_snapshot, &new_output);
        if outcome == Outcome::Matched {
            self.passed.push(test.id.clone());
        } else {
            self.failed.push(test.id.clone());
            self.any_mismatch = true;
        }
        self.next_test = self.next_test + 1;
        TestReport { outcome, new_output, write: update }
    }
}

/// The run's closing report: how many tests ran, how many passed and
/// failed, and the process exit status.
pub struct Summary {
    pub total: usize,
    pub passed: usize,
    pub failed: usize,
    pub exit_status: i32,
}

/// Draw the summary once every test is compared: the counts partition the
/// plan, and the exit status is 1 exactly when some test mismatched.
pub fn finalize(phase: &ComparePhase, plan: &TestPlan) -> (s: Summary)
    requires
        phase.wf(plan),
        phase.done(plan),
    ensures
        s.total == plan.tests.len(),
        s.passed == phase.passed@.len(),
        s.failed == phase.failed@.len(),
        s.passed + s.failed == s.total,
        s.exit_status == (if phase.any_mismatch {
            1int
        } else {
            0int
        }),
        s.exit_status == 0 <==> s.failed == 0,
{
    Summary {
        total: plan.tests.len(),
        passed: phase.passed.len(),
        failed: phase.failed.len(),
        exit_status: if phase.any_mismatch {
            1
        } else {
            0
        },
    }
}

} // verus!
