//! Deck scheduling: recency tallies, the re-sort that picks the next card,
//! the anti-repeat rule, and recording a review into the head card.
//!
//! The next-review time of each card comes from an external estimator; the
//! caller computes it per card and passes the resulting priorities in as
//! `due_times`, parallel to the deck.

use vstd::prelude::*;
use crate::card::{count_false, count_true, last_n, Card, RECENT_OUTCOMES};
use crate::distance::lev;
use crate::text::{norm_spec, ScoringConfig};

verus! {

/// `p` is a permutation of `0..n`.
pub open spec fn is_perm_of(p: Seq<int>, n: int) -> bool {
    &&& p.len() == n
    &&& forall|j: int| 0 <= j < n ==> 0 <= #[trigger] p[j] < n
    &&& forall|j1: int, j2: int| 0 <= j1 < j2 < n ==> p[j1] != p[j2]
    &&& forall|v: int| 0 <= v < n ==> p.contains(v)
}

/// The scheduling order on positions `i`, `j` of the pre-sort deck:
/// ascending by (in-timeout, due time, original position).  The original
/// position as final tiebreak is exactly stability: cards with equal keys
/// keep their previous relative order.
pub open spec fn sort_key_le(deck: Seq<Card>, due: Seq<u64>, now: u64, i: int, j: int) -> bool {
    let ti = deck[i].meta_data.in_timeout_spec(now);
    let tj = deck[j].meta_data.in_timeout_spec(now);
    if ti != tj {
        !ti
    } else if due[i] != due[j] {
        due[i] < due[j]
    } else {
        i <= j
    }
}

/// The deck order produced by the re-sort, as a permutation of the old
/// positions: non-decreasing in the scheduling order.
pub open spec fn schedule_sorted(deck: Seq<Card>, due: Seq<u64>, now: u64, p: Seq<int>) -> bool {
    forall|j1: int, j2: int|
        0 <= j1 < j2 < p.len() ==> sort_key_le(deck, due, now, #[trigger] p[j1], #[trigger] p[j2])
}

/// `s` with its first two elements exchanged.
pub open spec fn first_two_swapped<A>(s: Seq<A>) -> Seq<A> {
    s.update(0, s[1]).update(1, s[0])
}

/// The anti-repeat rule: when more than one card remains and the sort left
/// the just-reviewed card in front, the first two cards are exchanged.
pub open spec fn anti_repeat_applied(sorted: Seq<Card>, reviewed: u16) -> Seq<Card> {
    if sorted.len() > 1 && sorted[0].meta_data.id == reviewed {
        first_two_swapped(sorted)
    } else {
        sorted
    }
}

/// The full effect of one scheduling pass on a non-empty deck: the new deck
/// is the old one reordered by a permutation `p` that is sorted in the
/// scheduling order, with the anti-repeat rule applied on top.
pub open spec fn deck_resorted(
    old_deck: Seq<Card>,
    due: Seq<u64>,
    now: u64,
    p: Seq<int>,
    fin: Seq<Card>,
) -> bool {
    &&& is_perm_of(p, old_deck.len() as int)
    &&& schedule_sorted(old_deck, due, now, p)
    &&& fin == anti_repeat_applied(
        Seq::new(old_deck.len(), |j: int| old_deck[p[j]]),
        old_deck[0].meta_data.id,
    )
}

/// One deck position carried through the sort: the card, its scheduling key,
/// and its pre-sort position.
struct SortEntry {
    timeout: bool,
    due: u64,
    idx: usize,
    card: Card,
}

/// Lexicographic order on (timeout, due, original position).
spec fn entry_le(a: SortEntry, b: SortEntry) -> bool {
    if a.timeout != b.timeout {
        !a.timeout
    } else if a.due != b.due {
        a.due < b.due
    } else {
        a.idx <= b.idx
    }
}

fn entry_le_exec(a: &SortEntry, b: &SortEntry) -> (r: bool)
    ensures
        r == entry_le(*a, *b),
{
    if a.timeout != b.timeout {
        !a.timeout
    } else if a.due != b.due {
        a.due < b.due
    } else {
        a.idx <= b.idx
    }
}

/// The entry describes position `idx` of the pre-sort deck.
spec fn entry_corresponds(e: SortEntry, orig: Seq<Card>, due: Seq<u64>, now: u64) -> bool {
    &&& 0 <= e.idx < orig.len()
    &&& e.card == orig[e.idx as int]
    &&& e.due == due[e.idx as int]
    &&& e.timeout == orig[e.idx as int].meta_data.in_timeout_spec(now)
}

/// Exchanging two positions of a permutation of `0..n` yields a permutation
/// of `0..n`.
proof fn lemma_perm_swap(q: Seq<int>, n: int, a: int, b: int)
    requires
        is_perm_of(q, n),
        0 <= a < n,
        0 <= b < n,
    ensures
        is_perm_of(q.update(a, q[b]).update(b, q[a]), n),
{
    let q2 = q.update(a, q[b]).update(b, q[a]);
    assert forall|v: int| 0 <= v < n implies q2.contains(v) by {
        assert(q.contains(v));
        let j = choose|j: int| 0 <= j < q.len() && q[j] == v;
        if j == a {
            assert(q2[b] == v);
        } else if j == b {
            assert(q2[a] == v);
        } else {
            assert(q2[j] == v);
        }
    }
    assert forall|j1: int, j2: int| 0 <= j1 < j2 < n implies q2[j1] != q2[j2] by {
        let m1: int = if j1 == a {
            b
        } else if j1 == b {
            a
        } else {
            j1
        };
        let m2: int = if j2 == a {
            b
        } else if j2 == b {
            a
        } else {
            j2
        };
        assert(q2[j1] == q[m1]);
        assert(q2[j2] == q[m2]);
        assert(m1 != m2);
    }
}

/// Stable insertion sort on the entries.  Returns the permutation relating
/// the sorted order to the input order.
fn sort_entries(v: &mut Vec<SortEntry>) -> (perm: Ghost<Seq<int>>)
    ensures
        final(v)@.len() == old(v)@.len(),
        is_perm_of(perm@, old(v)@.len() as int),
        forall|k: int| 0 <= k < final(v)@.len() ==> final(v)@[k] == old(v)@[perm@[k]],
        forall|k1: int, k2: int|
            0 <= k1 < k2 < final(v)@.len() ==> entry_le(final(v)@[k1], final(v)@[k2]),
{
    let n = v.len();
    let ghost mut q: Seq<int> = Seq::new(n as nat, |i: int| i);
    proof {
        assert forall|val: int| 0 <= val < n implies q.contains(val) by {
            assert(q[val] == val);
        }
    }
    let mut i: usize = 1;
    while i < n
        invariant
            n == v@.len(),
            1 <= i <= n || (n == 0 && i == 1),
            is_perm_of(q, n as int),
            forall|k: int| 0 <= k < n ==> v@[k] == old(v)@[q[k]],
            forall|k1: int, k2: int| 0 <= k1 < k2 < i ==> entry_le(v@[k1], v@[k2]),
        decreases n - i,
    {
        let mut j: usize = i;
        loop
            invariant
                0 <= j <= i < n,
                n == v@.len(),
                is_perm_of(q, n as int),
                forall|k: int| 0 <= k < n ==> v@[k] == old(v)@[q[k]],
                forall|k1: int, k2: int|
                    0 <= k1 < k2 <= i && k1 != j && k2 != j ==> entry_le(v@[k1], v@[k2]),
                forall|k: int| j < k <= i ==> entry_le(v@[j as int], #[trigger] v@[k]),
            ensures
                0 <= j <= i,
                n == v@.len(),
                is_perm_of(q, n as int),
                forall|k: int| 0 <= k < n ==> v@[k] == old(v)@[q[k]],
                forall|k1: int, k2: int| 0 <= k1 < k2 <= i ==> entry_le(v@[k1], v@[k2]),
            decreases j,
        {
            if j == 0 {
                break;
            }
            if entry_le_exec(&v[j - 1], &v[j]) {
                assert forall|k1: int, k2: int| 0 <= k1 < k2 <= i implies entry_le(
                    v@[k1],
                    v@[k2],
                ) by {
                    if k2 == j as int && k1 < j - 1 {
                        assert(entry_le(v@[k1], v@[j - 1]));
                    }
                }
                break;
            }
            let ghost vb = v@;
            let moved = v.remove(j - 1);
            v.insert(j, moved);
            proof {
                assert(v@ =~= vb.update(j - 1, vb[j as int]).update(j as int, vb[j - 1]));
                lemma_perm_swap(q, n as int, j - 1, j as int);
                q = q.update(j - 1, q[j as int]).update(j as int, q[j - 1]);
            }
            j -= 1;
        }
        i += 1;
    }
    Ghost(q)
}

/// Sum over the deck of each card's pass count among its recent outcomes.
pub open spec fn deck_true_count(deck: Seq<Card>) -> nat
    decreases deck.len(),
{
    if deck.len() == 0 {
        0
    } else {
        deck_true_count(deck.drop_last()) + count_true(
            last_n(deck.last().meta_data.scores@, RECENT_OUTCOMES as int),
        )
    }
}

/// Sum over the deck of each card's fail count among its recent outcomes.
pub open spec fn deck_false_count(deck: Seq<Card>) -> nat
    decreases deck.len(),
{
    if deck.len() == 0 {
        0
    } else {
        deck_false_count(deck.drop_last()) + count_false(
            last_n(deck.last().meta_data.scores@, RECENT_OUTCOMES as int),
        )
    }
}

/// How many cards of the deck have never been reviewed.
pub open spec fn deck_unseen_count(deck: Seq<Card>) -> nat
    decreases deck.len(),
{
    if deck.len() == 0 {
        0
    } else {
        deck_unseen_count(deck.drop_last()) + if deck.last().meta_data.scores@.len() == 0 {
            1nat
        } else {
            0nat
        }
    }
}

/// The global recency tallies: summed pass and fail counts among each card's
/// recent outcomes, and the number of never-reviewed cards.
pub fn deck_tallies(deck: &Vec<Card>) -> (r: (usize, usize, usize))
    requires
        deck@.len() <= usize::MAX / 3,
    ensures
        r.0 == deck_true_count(deck@),
        r.1 == deck_false_count(deck@),
        r.2 == deck_unseen_count(deck@),
{
    let n = deck.len();
    let mut t: usize = 0;
    let mut f: usize = 0;
    let mut u: usize = 0;
    let mut i: usize = 0;
    while i < n
        invariant
            0 <= i <= n,
            n == deck@.len(),
            n <= usize::MAX / 3,
            t == deck_true_count(deck@.take(i as int)),
            f == deck_false_count(deck@.take(i as int)),
            u == deck_unseen_count(deck@.take(i as int)),
            t <= 3 * i,
            f <= 3 * i,
            u <= i,
        decreases n - i,
    {
        proof {
            assert(deck@.take(i + 1).drop_last() =~= deck@.take(i as int));
            assert(deck@.take(i + 1).last() == deck@[i as int]);
            crate::card::lemma_recent_counts_bounded(deck@[i as int].meta_data.scores@);
        }
        let (ct, cf) = deck[i].meta_data.recent_outcome_counts();
        t = t + ct;
        f = f + cf;
        if deck[i].meta_data.is_unseen() {
            u = u + 1;
        }
        i += 1;
    }
    proof {
        assert(deck@.take(n as int) =~= deck@);
    }
    (t, f, u)
}

/// Whether the learner's progress ratio has reached the deck-growth
/// threshold, given in tenths of a percent.  An empty total counts as zero
/// progress rather than an undefined ratio.
pub open spec fn progress_reaches_threshold(
    t: nat,
    f: nat,
    u: nat,
    threshold_tenths: u32,
) -> bool {
    if t + f + u == 0 {
        threshold_tenths == 0
    } else {
        1000 * t >= threshold_tenths * (t + f + u)
    }
}

/// The deck-growth decision: fetch a new card only when growth is enabled
/// and progress has reached the threshold.
pub fn should_fetch_new_card(
    t: usize,
    f: usize,
    u: usize,
    threshold_tenths: u32,
    enabled: bool,
) -> (r: bool)
    ensures
        r == (enabled && progress_reaches_threshold(t as nat, f as nat, u as nat,
            threshold_tenths,
        )),
{
    if !enabled {
        return false;
    }
    let total: u128 = t as u128 + f as u128 + u as u128;
    if total == 0 {
        threshold_tenths == 0
    } else {
        proof {
            let a = threshold_tenths as int;
            let b = total as int;
            assert(a * b <= 0xFFFF_FFFF * (3 * 0xFFFF_FFFF_FFFF_FFFF)) by (nonlinear_arith)
                requires
                    0 <= a <= 0xFFFF_FFFF,
                    0 <= b <= 3 * 0xFFFF_FFFF_FFFF_FFFF,
            ;
        }
        1000 * (t as u128) >= (threshold_tenths as u128) * total
    }
}

/// Scores the typed answer against the head card's label and records the
/// attempt (timestamp and outcome) into that card's history, leaving every
/// other card untouched.  The returned flag is the learner's feedback; the
/// caller re-sorts the deck afterwards with [`update_card_list`].
pub fn evaluate_review(
    deck: &mut Vec<Card>,
    user_input: &str,
    cfg: &ScoringConfig,
    now: u64,
) -> (passed: bool)
    requires
        old(deck)@.len() > 0,
        old(deck)@[0].meta_data.wf(),
        old(deck)@[0].meta_data.timestamps@.len() > 0 ==> now >= old(
            deck,
        )@[0].meta_data.timestamps@.last(),
    ensures
        passed == (lev(
            norm_spec(user_input@, *cfg),
            norm_spec(old(deck)@[0].display_data.label_text@, *cfg),
        ) <= cfg.tolerance),
        final(deck)@.len() == old(deck)@.len(),
        forall|i: int| 1 <= i < old(deck)@.len() ==> final(deck)@[i] == old(deck)@[i],
        final(deck)@[0].display_data == old(deck)@[0].display_data,
        final(deck)@[0].meta_data.id == old(deck)@[0].meta_data.id,
        final(deck)@[0].meta_data.timestamps@ == old(deck)@[0].meta_data.timestamps@.push(now),
        final(deck)@[0].meta_data.scores@ == old(deck)@[0].meta_data.scores@.push(passed),
        final(deck)@[0].meta_data.wf(),
    {
    let ghost orig = deck@;
    let mut card = deck.remove(0);
    let label = card.display_data.get_label();
    let passed = crate::distance::score(user_input, label.as_str(), cfg);
    card.meta_data.record_attempt(now, passed);
    deck.insert(0, card);
    proof {
        assert(deck@ =~= orig.update(0, deck@[0]));
    }
    passed
}

/// One scheduling pass over a non-empty deck: re-sorts it ascending by
/// (in-timeout, due time) — stably, so equal keys keep their previous
/// relative order — and then applies the anti-repeat rule.  The deck stays
/// the same size (in particular it never becomes empty), and with more than
/// one card the head is never the card that was just reviewed.
pub fn update_card_list(deck: &mut Vec<Card>, due_times: &Vec<u64>, now: u64)
    requires
        old(deck)@.len() > 0,
        due_times@.len() == old(deck)@.len(),
        forall|i: int, j: int|
            0 <= i < j < old(deck)@.len() ==> old(deck)@[i].meta_data.id != old(
                deck,
            )@[j].meta_data.id,
    ensures
        final(deck)@.len() == old(deck)@.len(),
        exists|p: Seq<int>| deck_resorted(old(deck)@, due_times@, now, p, final(deck)@),
        old(deck)@.len() > 1 ==> final(deck)@[0].meta_data.id != old(deck)@[0].meta_data.id,
{
    let ghost orig = deck@;
    let n = deck.len();
    let reviewed_id = deck[0].meta_data.id;

    let mut entries: Vec<SortEntry> = Vec::new();
    while deck.len() > 0
        invariant
            orig.len() == n,
            due_times@.len() == n,
            deck@ == orig.take(deck@.len() as int),
            entries@.len() + deck@.len() == n,
            forall|k: int| 0 <= k < entries@.len() ==> #[trigger] entries@[k].idx == n - 1 - k,
            forall|k: int|
                0 <= k < entries@.len() ==> entry_corresponds(
                    #[trigger] entries@[k],
                    orig,
                    due_times@,
                    now,
                ),
        decreases deck@.len(),
    {
        let idx = deck.len() - 1;
        proof {
            assert(orig.take((idx + 1) as int).last() == orig[idx as int]);
            assert(orig.take((idx + 1) as int).drop_last() =~= orig.take(idx as int));
        }
        let card = deck.pop().unwrap();
        let timeout = card.meta_data.in_timeout(now);
        let due = due_times[idx];
        entries.push(SortEntry { timeout, due, idx, card });
    }

    let ghost before_sort = entries@;
    let Ghost(q) = sort_entries(&mut entries);
    let ghost p: Seq<int> = Seq::new(n as nat, |j: int| n - 1 - q[j]);
    proof {
        assert forall|j: int| 0 <= j < n implies entries@[j] == before_sort[q[j]] && #[trigger] entries@[j].idx
            == p[j] && entry_corresponds(entries@[j], orig, due_times@, now) by {
            assert(entries@[j] == before_sort[q[j]]);
            assert(before_sort[q[j]].idx == n - 1 - q[j]);
        }
        assert forall|v: int| 0 <= v < n implies p.contains(v) by {
            assert(q.contains(n - 1 - v));
            let j = choose|j: int| 0 <= j < q.len() && q[j] == n - 1 - v;
            assert(p[j] == v);
        }
        assert(is_perm_of(p, n as int));
        assert forall|j1: int, j2: int| 0 <= j1 < j2 < n implies sort_key_le(
            orig,
            due_times@,
            now,
            p[j1],
            p[j2],
        ) by {
            assert(entry_le(entries@[j1], entries@[j2]));
        }
    }

    let ghost sorted_entries = entries@;
    while entries.len() > 0
        invariant
            n == orig.len(),
            sorted_entries.len() == n,
            entries@ == sorted_entries.take(entries@.len() as int),
            deck@.len() + entries@.len() == n,
            forall|j: int|
                0 <= j < deck@.len() ==> deck@[j] == sorted_entries[entries@.len() + j].card,
        decreases entries@.len(),
    {
        let ghost m = entries@.len() as int;
        proof {
            assert(sorted_entries.take(m).last() == sorted_entries[m - 1]);
            assert(sorted_entries.take(m).drop_last() =~= sorted_entries.take(m - 1));
        }
        let e = entries.pop().unwrap();
        deck.insert(0, e.card);
    }

    let ghost sorted_deck = deck@;
    proof {
        assert(sorted_deck =~= Seq::new(orig.len(), |j: int| orig[p[j]]));
    }

    if deck.len() > 1 {
        let head_id = deck[0].meta_data.id;
        if head_id == reviewed_id {
            let first = deck.remove(0);
            deck.insert(1, first);
            proof {
                assert(deck@ =~= first_two_swapped(sorted_deck));
            }
        }
    }
    proof {
        assert(deck@ == anti_repeat_applied(sorted_deck, reviewed_id));
        assert(deck_resorted(orig, due_times@, now, p, deck@));
        if n > 1 {
            // the new head came from a position other than 0, or the swap
            // moved position 0 away; distinct positions carry distinct ids
            if sorted_deck[0].meta_data.id == reviewed_id {
                assert(deck@[0] == orig[p[1]]);
                assert(sorted_deck[0] == orig[p[0]]);
                assert(p[0] != p[1]);
            } else {
                assert(deck@[0] == orig[p[0]]);
            }
        }
    }
}

/// The full pass invoked once the learner closes the review feedback:
/// computes the global recency tallies, then re-sorts the deck and applies
/// the anti-repeat rule.  The returned tallies are (pass, fail, unseen);
/// the caller derives the progress ratio and the deck-growth decision from
/// them with [`should_fetch_new_card`].
pub fn advance_to_next_card(deck: &mut Vec<Card>, due_times: &Vec<u64>, now: u64) -> (tallies: (
    usize,
    usize,
    usize,
))
    requires
        old(deck)@.len() > 0,
        old(deck)@.len() <= usize::MAX / 3,
        due_times@.len() == old(deck)@.len(),
        forall|i: int, j: int|
            0 <= i < j < old(deck)@.len() ==> old(deck)@[i].meta_data.id != old(
                deck,
            )@[j].meta_data.id,
    ensures
        tallies.0 == deck_true_count(old(deck)@),
        tallies.1 == deck_false_count(old(deck)@),
        tallies.2 == deck_unseen_count(old(deck)@),
        final(deck)@.len() == old(deck)@.len(),
        exists|p: Seq<int>| deck_resorted(old(deck)@, due_times@, now, p, final(deck)@),
        old(deck)@.len() > 1 ==> final(deck)@[0].meta_data.id != old(deck)@[0].meta_data.id,
{
    let tallies = deck_tallies(deck);
    update_card_list(deck, due_times, now);
    tallies
}

/// Cards in timeout sink behind every card that is not: in the sorted order
/// produced by a scheduling pass, a non-timeout card is never preceded by a
/// timeout card, whatever their due-time priorities.
pub proof fn lemma_timeout_cards_sink(
    deck: Seq<Card>,
    due: Seq<u64>,
    now: u64,
    p: Seq<int>,
    j1: int,
    j2: int,
)
    requires
        is_perm_of(p, deck.len() as int),
        schedule_sorted(deck, due, now, p),
        0 <= j1 < j2 < p.len(),
        !deck[p[j2]].meta_data.in_timeout_spec(now),
    ensures
        !deck[p[j1]].meta_data.in_timeout_spec(now),
{
    assert(sort_key_le(deck, due, now, p[j1], p[j2]));
}

/// The re-sort is stable: two cards whose scheduling keys (timeout flag and
/// due time) are equal keep their pre-sort relative order.
pub proof fn lemma_resort_stable(
    deck: Seq<Card>,
    due: Seq<u64>,
    now: u64,
    p: Seq<int>,
    j1: int,
    j2: int,
)
    requires
        is_perm_of(p, deck.len() as int),
        schedule_sorted(deck, due, now, p),
        0 <= j1 < j2 < p.len(),
        deck[p[j1]].meta_data.in_timeout_spec(now) == deck[p[j2]].meta_data.in_timeout_spec(now),
        due[p[j1]] == due[p[j2]],
    ensures
        p[j1] < p[j2],
{
    assert(sort_key_le(deck, due, now, p[j1], p[j2]));
}

} // verus!
