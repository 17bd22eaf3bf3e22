//! Classification of a single test: stored snapshot versus captured output.

use vstd::prelude::*;

verus! {

/// The result of comparing one test's captured output against its stored
/// snapshot. `MissingCapturedOutput` marks a test id with no entry in the
/// execution record, an internal-consistency failure.
#[derive(Clone, Copy, Debug, PartialEq, Eq, Structural)]
pub enum Outcome {
    Matched,
    Mismatched,
    MissingCapturedOutput,
}

/// What comparing a stored snapshot against captured output yields:
/// `Matched` exactly when the two texts are equal, character for character.
pub open spec fn outcome_of(old_snapshot: Seq<char>, new_output: Seq<char>) -> Outcome {
    if old_snapshot == new_output {
        Outcome::Matched
    } else {
        Outcome::Mismatched
    }
}

/// Compare a stored snapshot against captured output, exactly.
pub fn classify(old_snapshot: &String, new_output: &String) -> (r: Outcome)
    ensures
        r == outcome_of(old_snapshot@, new_output@),
{
    if *old_snapshot == *new_output {
        Outcome::Matched
    } else {
        Outcome::Mismatched
    }
}

/// Comparison is exact: the outcome is `Matched` if and only if the stored
/// snapshot and the captured output are identical; any difference, even a
/// single trailing newline, is a mismatch.
pub proof fn lemma_comparison_exact(old_snapshot: Seq<char>, new_output: Seq<char>)
    ensures
        outcome_of(old_snapshot, new_output) == Outcome::Matched <==> old_snapshot == new_output,
        old_snapshot.len() != new_output.len() ==> outcome_of(old_snapshot, new_output)
            == Outcome::Mismatched,
{
}

/// With no prior snapshot file the stored text is empty, so a run without
/// update mode mismatches exactly when the captured output is non-empty,
/// and matches when it too is empty.
pub proof fn lemma_first_run(new_output: Seq<char>)
    ensures
        outcome_of(Seq::<char>::empty(), new_output) == (if new_output.len() == 0 {
            Outcome::Matched
        } else {
            Outcome::Mismatched
        }),
{
    if new_output.len() == 0 {
        assert(Seq::<char>::empty() =~= new_output);
    }
}

} // verus!
