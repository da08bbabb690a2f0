//! Answer normalization: punctuation stripping, transliteration to the ASCII
//! range, and case folding, each switched by a flag of [`ScoringConfig`].

use vstd::prelude::*;

verus! {

/// Normalization flags and the edit-distance tolerance used when a typed
/// answer is scored against a card's label.
pub struct ScoringConfig {
    /// Remove the fixed sentence-punctuation set before comparing.
    pub ignore_punctuation: bool,
    /// Transliterate both strings to their closest ASCII representation.
    pub fold_to_base_script: bool,
    /// Compare case-sensitively; when false both strings are lowercased.
    pub match_case: bool,
    /// Largest edit distance that still counts as a pass.
    pub tolerance: usize,
}

/// The fixed symbol set that `ignore_punctuation` removes.
pub open spec fn is_review_punct(c: char) -> bool {
    c == '?' || c == '(' || c == ')' || c == ',' || c == '"' || c == '.' || c == ';'
        || c == ':' || c == '\''
}

/// Order-preserving deletion of every punctuation character.
pub open spec fn strip_punct_spec(s: Seq<char>) -> Seq<char>
    decreases s.len(),
{
    if s.len() == 0 {
        s
    } else {
        let prefix = strip_punct_spec(s.drop_last());
        if is_review_punct(s.last()) {
            prefix
        } else {
            prefix.push(s.last())
        }
    }
}

/// What `any_ascii::any_ascii` returns: a function of the characters alone.
pub uninterp spec fn ascii_fold_of(s: Seq<char>) -> Seq<char>;

/// What `str::to_lowercase` returns: a function of the characters alone.
pub uninterp spec fn lower_of(s: Seq<char>) -> Seq<char>;

/// The full normalization pipeline, stage order fixed: punctuation strip,
/// then script fold, then case fold.
pub open spec fn norm_spec(s: Seq<char>, cfg: ScoringConfig) -> Seq<char> {
    let stripped = if cfg.ignore_punctuation {
        strip_punct_spec(s)
    } else {
        s
    };
    let folded = if cfg.fold_to_base_script {
        ascii_fold_of(stripped)
    } else {
        stripped
    };
    if !cfg.match_case {
        lower_of(folded)
    } else {
        folded
    }
}

/// Relies on `any_ascii::any_ascii`: character-by-character transliteration
/// into the ASCII range, depending on the input characters alone.
#[verifier::external_body]
fn ascii_fold(text: &str) -> (r: String)
    ensures
        r@ == ascii_fold_of(text@),
{
    any_ascii::any_ascii(text)
}

/// Relies on `str::to_lowercase`: the Unicode lowercase mapping, depending on
/// the input characters alone.
#[verifier::external_body]
fn lowercase(text: &str) -> (r: String)
    ensures
        r@ == lower_of(text@),
{
    text.to_lowercase()
}

/// Relies on `String::push`: appends exactly the given character.
#[verifier::external_body]
pub(crate) fn push_char(s: &mut String, c: char)
    ensures
        final(s)@ == old(s)@.push(c),
{
    s.push(c);
}

/// Removes every character of the fixed punctuation set, keeping the order of
/// the rest.
pub fn strip_punctuation(text: &str) -> (r: String)
    ensures
        r@ == strip_punct_spec(text@),
{
    let mut out = String::new();
    for c in it: text.chars()
        invariant
            it.seq() == text@,
            out@ == strip_punct_spec(text@.take(it.index())),
    {
        proof {
            assert(text@.take(it.index() + 1).drop_last() =~= text@.take(it.index()));
        }
        if !(c == '?' || c == '(' || c == ')' || c == ',' || c == '"' || c == '.' || c == ';'
            || c == ':' || c == '\'') {
            push_char(&mut out, c);
        }
    }
    proof {
        assert(text@.take(text@.len() as int) =~= text@);
    }
    out
}

/// Applies the enabled normalization stages to `text`, in the fixed order.
pub fn normalize(text: &str, cfg: &ScoringConfig) -> (r: String)
    ensures
        r@ == norm_spec(text@, *cfg),
{
    let stripped: String = if cfg.ignore_punctuation {
        strip_punctuation(text)
    } else {
        text.to_owned()
    };
    let folded: String = if cfg.fold_to_base_script {
        ascii_fold(stripped.as_str())
    } else {
        stripped
    };
    if !cfg.match_case {
        lowercase(folded.as_str())
    } else {
        folded
    }
}

/// Every character of a stripped string is outside the punctuation set.
pub proof fn lemma_strip_punct_free(s: Seq<char>)
    ensures
        forall|i: int|
            0 <= i < strip_punct_spec(s).len() ==> !is_review_punct(
                #[trigger] strip_punct_spec(s)[i],
            ),
    decreases s.len(),
{
    if s.len() > 0 {
        lemma_strip_punct_free(s.drop_last());
        let prefix = strip_punct_spec(s.drop_last());
        if !is_review_punct(s.last()) {
            assert(strip_punct_spec(s) == prefix.push(s.last()));
            assert forall|i: int|
                0 <= i < strip_punct_spec(s).len() implies !is_review_punct(
                strip_punct_spec(s)[i],
            ) by {
                if i < prefix.len() {
                    assert(strip_punct_spec(s)[i] == prefix[i]);
                } else {
                    assert(strip_punct_spec(s)[i] == s.last());
                }
            }
        }
    }
}

/// Stripping a string that holds no punctuation returns it unchanged.
pub proof fn lemma_strip_identity(s: Seq<char>)
    requires
        forall|i: int| 0 <= i < s.len() ==> !is_review_punct(#[trigger] s[i]),
    ensures
        strip_punct_spec(s) == s,
    decreases s.len(),
{
    if s.len() == 0 {
        assert(strip_punct_spec(s) =~= s);
    } else {
        lemma_strip_identity(s.drop_last());
        assert(strip_punct_spec(s) =~= s.drop_last().push(s.last()));
        assert(s.drop_last().push(s.last()) =~= s);
    }
}

/// Stripping punctuation twice is the same as stripping it once.
pub proof fn lemma_strip_idempotent(s: Seq<char>)
    ensures
        strip_punct_spec(strip_punct_spec(s)) == strip_punct_spec(s),
{
    lemma_strip_punct_free(s);
    lemma_strip_identity(strip_punct_spec(s));
}

/// Normalization is idempotent for the flag settings whose stages this crate
/// models exactly: case is kept and script folding is off, so only the
/// punctuation strip (or nothing) is applied.
pub proof fn lemma_normalize_idempotent(s: Seq<char>, cfg: ScoringConfig)
    requires
        cfg.match_case,
        !cfg.fold_to_base_script,
    ensures
        norm_spec(norm_spec(s, cfg), cfg) == norm_spec(s, cfg),
{
    if cfg.ignore_punctuation {
        lemma_strip_idempotent(s);
    }
}

} // verus!
