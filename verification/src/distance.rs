//! Answer scoring: bounded Levenshtein edit distance between the normalized
//! typed answer and the normalized expected label.

use vstd::prelude::*;
use crate::text::{norm_spec, normalize, ScoringConfig};

verus! {

pub open spec fn min3(a: nat, b: nat, c: nat) -> nat {
    if a <= b && a <= c {
        a
    } else if b <= c {
        b
    } else {
        c
    }
}

/// Levenshtein edit distance: the least number of single-character
/// insertions, deletions and substitutions turning `a` into `b`.
pub open spec fn lev(a: Seq<char>, b: Seq<char>) -> nat
    decreases a.len(), b.len(),
{
    if a.len() == 0 {
        b.len()
    } else if b.len() == 0 {
        a.len()
    } else {
        let subst_cost: nat = if a.last() == b.last() {
            0
        } else {
            1
        };
        min3(
            lev(a.drop_last(), b) + 1,
            lev(a, b.drop_last()) + 1,
            lev(a.drop_last(), b.drop_last()) + subst_cost,
        )
    }
}

/// Relies on `edit_distance::edit_distance`: per its documentation it returns
/// the Levenshtein distance (minimal insertions, deletions and substitutions)
/// between the two strings.
#[verifier::external_body]
fn levenshtein(a: &str, b: &str) -> (r: usize)
    ensures
        r == lev(a@, b@),
{
    edit_distance::edit_distance(a, b)
}

/// The edit distance between a string and itself is zero.
pub proof fn lemma_lev_self(a: Seq<char>)
    ensures
        lev(a, a) == 0,
    decreases a.len(),
{
    if a.len() > 0 {
        lemma_lev_self(a.drop_last());
    }
}

/// The edit distance is symmetric in its arguments.
pub proof fn lemma_lev_symmetric(a: Seq<char>, b: Seq<char>)
    ensures
        lev(a, b) == lev(b, a),
    decreases a.len() + b.len(),
{
    if a.len() > 0 && b.len() > 0 {
        lemma_lev_symmetric(a.drop_last(), b);
        lemma_lev_symmetric(a, b.drop_last());
        lemma_lev_symmetric(a.drop_last(), b.drop_last());
    }
}

/// Scores a typed answer against the expected label: both strings are
/// normalized identically, then the answer passes iff their edit distance is
/// within the configured tolerance.
pub fn score(user_input: &str, expected_label: &str, cfg: &ScoringConfig) -> (passed: bool)
    ensures
        passed == (lev(norm_spec(user_input@, *cfg), norm_spec(expected_label@, *cfg))
            <= cfg.tolerance),
{
    let a = normalize(user_input, cfg);
    let b = normalize(expected_label, cfg);
    levenshtein(a.as_str(), b.as_str()) <= cfg.tolerance
}

/// Scoring is symmetric: swapping the typed answer and the label cannot
/// change the outcome, whatever the flags and tolerance.
pub proof fn lemma_score_symmetric(a: Seq<char>, b: Seq<char>, cfg: ScoringConfig, tol: nat)
    ensures
        (lev(norm_spec(a, cfg), norm_spec(b, cfg)) <= tol) == (lev(
            norm_spec(b, cfg),
            norm_spec(a, cfg),
        ) <= tol),
{
    lemma_lev_symmetric(norm_spec(a, cfg), norm_spec(b, cfg));
}

/// Scoring is reflexive: a string always passes against itself, for any
/// tolerance.
pub proof fn lemma_score_reflexive(a: Seq<char>, cfg: ScoringConfig, tol: nat)
    ensures
        lev(norm_spec(a, cfg), norm_spec(a, cfg)) <= tol,
{
    lemma_lev_self(norm_spec(a, cfg));
}

} // verus!
