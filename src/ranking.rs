//! Ordering of candidate listings against a free-text query.
//!
//! A candidate whose case-folded name equals the case-folded query is an exact
//! match and ranks above every other candidate. Any other candidate is scored by
//! the skim fuzzy matcher on the case-folded strings and dropped when the query
//! is not a subsequence of its name; its score is lowered by the difference in
//! character length between name and query. Equal scores keep input order.
use std::collections::hash_map::RandomState;
use std::hash::Hash;

use fuzzy_matcher::skim::SkimMatcherV2;
use fuzzy_matcher::FuzzyMatcher;
use priority_queue::PriorityQueue;
use vstd::prelude::*;
use vstd::string::StrSliceExecFns;

use crate::subs::AnimeIndexer;

verus! {

/// What `str::to_lowercase` returns for a string.
pub uninterp spec fn lower_of(s: Seq<char>) -> Seq<char>;

/// What the skim fuzzy matcher (default configuration) scores for a choice and a pattern.
pub uninterp spec fn skim_score_of(choice: Seq<char>, pattern: Seq<char>) -> Option<i64>;

/// Relies on `str::to_lowercase`: the result depends on the characters alone.
#[verifier::external_body]
fn lowercase(s: &str) -> (r: String)
    ensures
        r@ == lower_of(s@),
{
    s.to_lowercase()
}

/// Relies on `SkimMatcherV2::fuzzy_match` with the default matcher: the score
/// depends on the two strings alone, and an empty pattern scores zero.
#[verifier::external_body]
fn skim_score(choice: &str, pattern: &str) -> (r: Option<i64>)
    ensures
        r == skim_score_of(choice@, pattern@),
        pattern@.len() == 0 ==> r == Some(0i64),
{
    SkimMatcherV2::default().fuzzy_match(choice, pattern)
}

/// The priority of a candidate in the ranking queue: exact-match flag,
/// length-adjusted score, and a tie-breaker that favours earlier positions.
pub type RankPriority = (u8, i128, usize);

#[verifier::external_type_specification]
#[verifier::external_body]
#[verifier::reject_recursive_types(I)]
#[verifier::reject_recursive_types(P)]
#[verifier::reject_recursive_types(H)]
pub struct ExPriorityQueue<I, P, H>(PriorityQueue<I, P, H>) where I: Hash + Eq, P: Ord;

/// The items of a ranking queue, each with its priority.
pub uninterp spec fn queue_contents(q: PriorityQueue<usize, RankPriority, RandomState>) -> Map<
    usize,
    RankPriority,
>;

/// Lexicographic order of std's tuples: `a >= b`.
pub open spec fn priority_ge(a: RankPriority, b: RankPriority) -> bool {
    a.0 > b.0 || (a.0 == b.0 && (a.1 > b.1 || (a.1 == b.1 && a.2 >= b.2)))
}

/// Relies on `PriorityQueue::new`: the queue starts empty.
#[verifier::external_body]
fn queue_new() -> (q: PriorityQueue<usize, RankPriority, RandomState>)
    ensures
        queue_contents(q).dom() == Set::<usize>::empty(),
{
    PriorityQueue::new()
}

/// Relies on `PriorityQueue::push`: an item not yet in the queue is added with its priority.
#[verifier::external_body]
fn queue_push(q: &mut PriorityQueue<usize, RankPriority, RandomState>, item: usize, priority: RankPriority)
    requires
        !queue_contents(*old(q)).contains_key(item),
    ensures
        queue_contents(*final(q)) == queue_contents(*old(q)).insert(item, priority),
{
    q.push(item, priority);
}

/// Relies on `PriorityQueue::into_sorted_vec`: every item once, from the highest
/// priority to the lowest.
#[verifier::external_body]
fn queue_into_sorted_vec(q: PriorityQueue<usize, RankPriority, RandomState>) -> (r: Vec<usize>)
    ensures
        r@.no_duplicates(),
        forall|i: usize| #[trigger] r@.contains(i) <==> queue_contents(q).contains_key(i),
        forall|k: int, l: int|
            0 <= k < l < r@.len() ==> priority_ge(
                #[trigger] queue_contents(q)[r@[k]],
                #[trigger] queue_contents(q)[r@[l]],
            ),
{
    q.into_sorted_vec()
}

/// Absolute difference of two lengths.
pub open spec fn length_gap(a: Seq<char>, b: Seq<char>) -> int {
    if a.len() >= b.len() {
        a.len() - b.len()
    } else {
        b.len() - a.len()
    }
}

/// The score of a candidate name against a query: whether it is an exact
/// (case-folded) match, and its length-adjusted score; `None` when dropped.
pub open spec fn candidate_score(query: Seq<char>, name: Seq<char>) -> Option<(bool, int)> {
    if lower_of(name) == lower_of(query) {
        Some((true, i64::MAX - length_gap(name, query)))
    } else {
        match skim_score_of(lower_of(name), lower_of(query)) {
            Some(s) => Some((false, s - length_gap(name, query))),
            None => None,
        }
    }
}

/// The length-adjusted score of a scored candidate.
pub open spec fn adjusted_score(query: Seq<char>, name: Seq<char>) -> int {
    match candidate_score(query, name) {
        Some((_, s)) => s,
        None => 0,
    }
}

pub open spec fn is_scored(query: Seq<char>, names: Seq<Seq<char>>, i: int) -> bool {
    0 <= i < names.len() && candidate_score(query, names[i]) is Some
}

/// Candidate `i` ranks before candidate `j`: exact matches first, then the higher
/// adjusted score, then the earlier position in the input.
pub open spec fn ranks_before(query: Seq<char>, names: Seq<Seq<char>>, i: int, j: int) -> bool {
    let a = candidate_score(query, names[i])->0;
    let b = candidate_score(query, names[j])->0;
    (a.0 && !b.0) || (a.0 == b.0 && (a.1 > b.1 || (a.1 == b.1 && i < j)))
}

/// `order` lists the positions of exactly the scored candidates, best first.
pub open spec fn is_ranking(query: Seq<char>, names: Seq<Seq<char>>, order: Seq<int>) -> bool {
    &&& forall|k: int| 0 <= k < order.len() ==> is_scored(query, names, #[trigger] order[k])
    &&& forall|i: int| is_scored(query, names, i) ==> #[trigger] order.contains(i)
    &&& forall|k: int, l: int|
        0 <= k < l < order.len() ==> ranks_before(query, names, #[trigger] order[k], #[trigger] order[l])
}

/// The ranking of `names` against `query`: the one order that `is_ranking` admits.
pub closed spec fn ranking(query: Seq<char>, names: Seq<Seq<char>>) -> Seq<int> {
    choose|order: Seq<int>| is_ranking(query, names, order)
}

/// The names of a sequence of candidates.
pub open spec fn names_of(c: Seq<AnimeIndexer>) -> Seq<Seq<char>> {
    c.map_values(|x: AnimeIndexer| x.name@)
}

/// The queue priority that the ranking gives candidate `i`.
pub open spec fn priority_of(query: Seq<char>, names: Seq<Seq<char>>, i: int) -> RankPriority {
    let score = candidate_score(query, names[i])->0;
    ((if score.0 { 1u8 } else { 0u8 }), score.1 as i128, (usize::MAX - i) as usize)
}

proof fn lemma_priority_order(query: Seq<char>, names: Seq<Seq<char>>, i: int, j: int)
    requires
        is_scored(query, names, i),
        is_scored(query, names, j),
        i != j,
        0 <= i <= usize::MAX,
        0 <= j <= usize::MAX,
        priority_of(query, names, i).1 == adjusted_score(query, names[i]),
        priority_of(query, names, j).1 == adjusted_score(query, names[j]),
        priority_ge(priority_of(query, names, i), priority_of(query, names, j)),
    ensures
        ranks_before(query, names, i, j),
{
}

/// The ranking exists, and `ranking` is it.
pub proof fn lemma_ranking_is(query: Seq<char>, names: Seq<Seq<char>>, order: Seq<int>)
    requires
        is_ranking(query, names, order),
    ensures
        ranking(query, names) == order,
        is_ranking(query, names, ranking(query, names)),
{
    lemma_ranking_unique(query, names, ranking(query, names), order);
}

/// The scored positions below `n`, in input order.
spec fn scored_prefix(query: Seq<char>, names: Seq<Seq<char>>, n: int) -> Seq<int>
    decreases n,
{
    if n <= 0 {
        Seq::empty()
    } else {
        let s = scored_prefix(query, names, n - 1);
        if is_scored(query, names, n - 1) {
            s.push(n - 1)
        } else {
            s
        }
    }
}

proof fn lemma_scored_prefix(query: Seq<char>, names: Seq<Seq<char>>, n: int)
    requires
        0 <= n,
    ensures
        forall|x: int|
            #[trigger] scored_prefix(query, names, n).contains(x) <==> (0 <= x < n && is_scored(
                query,
                names,
                x,
            )),
        scored_prefix(query, names, n).no_duplicates(),
    decreases n,
{
    if n > 0 {
        lemma_scored_prefix(query, names, n - 1);
        let s = scored_prefix(query, names, n - 1);
        if is_scored(query, names, n - 1) {
            let t = s.push(n - 1);
            assert forall|x: int| #[trigger] t.contains(x) <==> (0 <= x < n && is_scored(query, names, x)) by {
                if t.contains(x) && x != n - 1 {
                    let k = choose|k: int| 0 <= k < t.len() && t[k] == x;
                    assert(s[k] == x);
                    assert(s.contains(x));
                }
                if 0 <= x < n - 1 && is_scored(query, names, x) {
                    assert(s.contains(x));
                    let k = choose|k: int| 0 <= k < s.len() && s[k] == x;
                    assert(t[k] == x);
                }
                if x == n - 1 {
                    assert(t[s.len() as int] == x);
                }
            }
            assert forall|i: int, j: int|
                0 <= i < t.len() && 0 <= j < t.len() && i != j
                implies t[i] != t[j] by {
                if i < s.len() {
                    assert(s.contains(s[i]));
                }
                if j < s.len() {
                    assert(s.contains(s[j]));
                }
            }
        }
    }
}

/// `ranks_before`, with each position also ranking with itself.
pub open spec fn rank_leq(query: Seq<char>, names: Seq<Seq<char>>) -> spec_fn(int, int) -> bool {
    |a: int, b: int| a == b || ranks_before(query, names, a, b)
}

proof fn lemma_rank_leq_total(query: Seq<char>, names: Seq<Seq<char>>)
    ensures
        vstd::relations::total_ordering(rank_leq(query, names)),
{
    let leq = rank_leq(query, names);
    assert forall|x: int, y: int, z: int| #[trigger] leq(x, y) && #[trigger] leq(y, z) implies leq(x, z) by {
    }
    assert forall|x: int, y: int| #[trigger] leq(x, y) && #[trigger] leq(y, x) implies x == y by {
    }
    assert forall|x: int, y: int| #[trigger] leq(x, y) || #[trigger] leq(y, x) by {
    }
    assert forall|x: int| #[trigger] leq(x, x) by {
    }
}

/// Every list of names has a ranking.
pub proof fn lemma_ranking_exists(query: Seq<char>, names: Seq<Seq<char>>)
    ensures
        is_ranking(query, names, ranking(query, names)),
{
    broadcast use vstd::seq_lib::group_to_multiset_ensures;

    let base = scored_prefix(query, names, names.len() as int);
    lemma_scored_prefix(query, names, names.len() as int);
    let leq = rank_leq(query, names);
    lemma_rank_leq_total(query, names);
    base.lemma_sort_by_ensures(leq);
    let sorted = base.sort_by(leq);
    base.lemma_multiset_has_no_duplicates();
    sorted.lemma_multiset_has_no_duplicates_conv();
    assert forall|x: int| #[trigger] sorted.contains(x) <==> base.contains(x) by {
        assert(sorted.to_multiset().count(x) == base.to_multiset().count(x));
    }
    assert forall|k: int| 0 <= k < sorted.len() implies is_scored(query, names, #[trigger] sorted[k]) by {
        assert(sorted.contains(sorted[k]));
    }
    assert forall|k: int, l: int| 0 <= k < l < sorted.len() implies ranks_before(
        query,
        names,
        #[trigger] sorted[k],
        #[trigger] sorted[l],
    ) by {
        assert(leq(sorted[k], sorted[l]));
    }
    assert(is_ranking(query, names, sorted));
}

/// The candidates that survive ranking against `query`, best first.
pub open spec fn ranked_candidates(query: Seq<char>, c: Seq<AnimeIndexer>) -> Seq<AnimeIndexer> {
    ranking(query, names_of(c)).map_values(|i: int| c[i])
}

/// Ranking is idempotent: ranking the output of a ranking again, with the same
/// query, gives back the same list in the same order.
pub proof fn lemma_rank_idempotent(query: Seq<char>, c: Seq<AnimeIndexer>)
    ensures
        ranked_candidates(query, ranked_candidates(query, c)) == ranked_candidates(query, c),
{
    let names = names_of(c);
    let order = ranking(query, names);
    lemma_ranking_exists(query, names);
    let r = ranked_candidates(query, c);
    let rnames = names_of(r);
    assert forall|k: int| 0 <= k < r.len() implies #[trigger] rnames[k] == names[order[k]] by {
        assert(is_scored(query, names, order[k]));
    }
    let id = Seq::new(r.len(), |k: int| k);
    assert forall|k: int| 0 <= k < id.len() implies is_scored(query, rnames, #[trigger] id[k]) by {
        assert(is_scored(query, names, order[k]));
    }
    assert forall|i: int| is_scored(query, rnames, i) implies #[trigger] id.contains(i) by {
        assert(id[i] == i);
    }
    assert forall|k: int, l: int| 0 <= k < l < id.len() implies ranks_before(
        query,
        rnames,
        #[trigger] id[k],
        #[trigger] id[l],
    ) by {
        assert(ranks_before(query, names, order[k], order[l]));
        assert(rnames[k] == names[order[k]]);
        assert(rnames[l] == names[order[l]]);
    }
    lemma_ranking_is(query, rnames, id);
    assert(ranked_candidates(query, r) =~= r);
}

/// A candidate whose case-folded name equals the case-folded query makes the
/// ranking non-empty, and the first ranked candidate is then such an exact match,
/// whatever the fuzzy scores of the others.
pub proof fn lemma_exact_match_first(query: Seq<char>, c: Seq<AnimeIndexer>, i: int)
    requires
        0 <= i < c.len(),
        lower_of(c[i].name@) == lower_of(query),
    ensures
        ranked_candidates(query, c).len() > 0,
        lower_of(ranked_candidates(query, c)[0].name@) == lower_of(query),
{
    let names = names_of(c);
    let order = ranking(query, names);
    lemma_ranking_exists(query, names);
    assert(names[i] == c[i].name@);
    assert(is_scored(query, names, i));
    assert(order.contains(i));
    let k = choose|k: int| 0 <= k < order.len() && order[k] == i;
    if k > 0 {
        assert(ranks_before(query, names, order[0], order[k]));
    }
    assert(is_scored(query, names, order[0]));
    assert(names[order[0]] == c[order[0]].name@);
}

/// Of two candidates that are not exact matches and get the same fuzzy score,
/// the one whose length is closer to the query's both survives and ranks higher.
pub proof fn lemma_closer_length_ranks_higher(query: Seq<char>, c: Seq<AnimeIndexer>, i: int, j: int)
    requires
        0 <= i < c.len(),
        0 <= j < c.len(),
        lower_of(c[i].name@) != lower_of(query),
        lower_of(c[j].name@) != lower_of(query),
        skim_score_of(lower_of(c[i].name@), lower_of(query)) is Some,
        skim_score_of(lower_of(c[i].name@), lower_of(query)) == skim_score_of(
            lower_of(c[j].name@),
            lower_of(query),
        ),
        length_gap(c[i].name@, query) < length_gap(c[j].name@, query),
    ensures
        exists|k: int, l: int|
            0 <= k < l < ranking(query, names_of(c)).len() && ranking(query, names_of(c))[k] == i
                && ranking(query, names_of(c))[l] == j,
{
    let names = names_of(c);
    let order = ranking(query, names);
    lemma_ranking_exists(query, names);
    assert(names[i] == c[i].name@);
    assert(names[j] == c[j].name@);
    assert(is_scored(query, names, i));
    assert(is_scored(query, names, j));
    assert(order.contains(i));
    assert(order.contains(j));
    let k = choose|k: int| 0 <= k < order.len() && order[k] == i;
    let l = choose|l: int| 0 <= l < order.len() && order[l] == j;
    if l < k {
        assert(ranks_before(query, names, order[l], order[k]));
    }
    assert(k != l);
}

/// At most one order is a ranking.
pub proof fn lemma_ranking_unique(query: Seq<char>, names: Seq<Seq<char>>, o1: Seq<int>, o2: Seq<int>)
    requires
        is_ranking(query, names, o1),
        is_ranking(query, names, o2),
    ensures
        o1 == o2,
{
    lemma_sorted_unique(query, names, o1, o2);
}

proof fn lemma_sorted_unique(query: Seq<char>, names: Seq<Seq<char>>, o1: Seq<int>, o2: Seq<int>)
    requires
        forall|k: int, l: int|
            0 <= k < l < o1.len() ==> ranks_before(query, names, #[trigger] o1[k], #[trigger] o1[l]),
        forall|k: int, l: int|
            0 <= k < l < o2.len() ==> ranks_before(query, names, #[trigger] o2[k], #[trigger] o2[l]),
        forall|x: int| #![trigger o1.contains(x)] #![trigger o2.contains(x)] o1.contains(x) <==> o2.contains(x),
    ensures
        o1 == o2,
    decreases o1.len(),
{
    if o1.len() == 0 {
        if o2.len() > 0 {
            assert(o2.contains(o2[0]));
            assert(o1.contains(o2[0]));
        }
        assert(o1 =~= o2);
    } else {
        assert(o1.contains(o1[0]));
        assert(o2.len() > 0);
        let h1 = o1[0];
        let h2 = o2[0];
        if h1 != h2 {
            assert(o1.contains(h2)) by {
                assert(o2.contains(h2));
            }
            let k = choose|k: int| 0 <= k < o1.len() && o1[k] == h2;
            assert(ranks_before(query, names, o1[0], o1[k]));
            let m = choose|m: int| 0 <= m < o2.len() && o2[m] == h1;
            assert(ranks_before(query, names, o2[0], o2[m]));
        }
        let t1 = o1.drop_first();
        let t2 = o2.drop_first();
        assert forall|x: int| #![trigger t1.contains(x)] #![trigger t2.contains(x)] t1.contains(x) <==> t2.contains(x) by {
            if t1.contains(x) {
                let k = choose|k: int| 0 <= k < t1.len() && t1[k] == x;
                assert(o1[k + 1] == x);
                assert(ranks_before(query, names, o1[0], o1[k + 1]));
                assert(o1.contains(x));
                let m = choose|m: int| 0 <= m < o2.len() && o2[m] == x;
                assert(m != 0);
                assert(t2[m - 1] == x);
            }
            if t2.contains(x) {
                let k = choose|k: int| 0 <= k < t2.len() && t2[k] == x;
                assert(o2[k + 1] == x);
                assert(ranks_before(query, names, o2[0], o2[k + 1]));
                assert(o2.contains(x));
                let m = choose|m: int| 0 <= m < o1.len() && o1[m] == x;
                assert(m != 0);
                assert(t1[m - 1] == x);
            }
        }
        assert forall|k: int, l: int|
            0 <= k < l < t1.len() implies ranks_before(query, names, #[trigger] t1[k], #[trigger] t1[l]) by {
            assert(t1[k] == o1[k + 1] && t1[l] == o1[l + 1]);
        }
        assert forall|k: int, l: int|
            0 <= k < l < t2.len() implies ranks_before(query, names, #[trigger] t2[k], #[trigger] t2[l]) by {
            assert(t2[k] == o2[k + 1] && t2[l] == o2[l + 1]);
        }
        lemma_sorted_unique(query, names, t1, t2);
        assert(o1 =~= o2) by {
            assert forall|i: int| 0 <= i < o1.len() implies o1[i] == o2[i] by {
                if i > 0 {
                    assert(o1[i] == t1[i - 1]);
                    assert(o2[i] == t2[i - 1]);
                }
            }
        }
    }
}

/// The positions of the candidates that survive ranking against `query`, best first.
pub fn rank_positions(query: &str, candidates: &Vec<AnimeIndexer>) -> (r: Vec<usize>)
    ensures
        is_ranking(query@, names_of(candidates@), r@.map_values(|i: usize| i as int)),
{
    let ghost names = names_of(candidates@);
    let query_lower = lowercase(query);
    let query_len = query.unicode_len();
    let mut queue = queue_new();
    let n = candidates.len();
    let mut i: usize = 0;
    while i < n
        invariant
            n == candidates@.len(),
            names == names_of(candidates@),
            query_lower@ == lower_of(query@),
            query_len == query@.len(),
            i <= n,
            forall|j: usize|
                #[trigger] queue_contents(queue).contains_key(j) <==> (j < i && is_scored(
                    query@,
                    names,
                    j as int,
                )),
            forall|j: usize|
                #[trigger] queue_contents(queue).contains_key(j) ==> queue_contents(queue)[j]
                    == priority_of(query@, names, j as int) && queue_contents(queue)[j].1
                    == adjusted_score(query@, names[j as int]),
        decreases n - i,
    {
        let name = candidates[i].name.as_str();
        assert(name@ == names[i as int]);
        let name_lower = lowercase(name);
        let name_len = name.unicode_len();
        let gap: i128 = if name_len >= query_len {
            (name_len - query_len) as i128
        } else {
            (query_len - name_len) as i128
        };
        assert(gap == length_gap(name@, query@));
        let score: Option<(u8, i128)> = if name_lower == query_lower {
            Some((1u8, i64::MAX as i128 - gap))
        } else {
            match skim_score(name_lower.as_str(), query_lower.as_str()) {
                Some(s) => Some((0u8, s as i128 - gap)),
                None => None,
            }
        };
        match score {
            Some((exact, adjusted)) => {
                let ghost before = queue_contents(queue);
                queue_push(&mut queue, i, (exact, adjusted, usize::MAX - i));
                assert forall|j: usize|
                    #[trigger] queue_contents(queue).contains_key(j) implies queue_contents(queue)[j]
                        == priority_of(query@, names, j as int) && queue_contents(queue)[j].1
                        == adjusted_score(query@, names[j as int]) by {
                    if j != i {
                        assert(before.contains_key(j));
                    }
                }
            },
            None => {},
        }
        i = i + 1;
    }
    let sorted = queue_into_sorted_vec(queue);
    let ghost order = sorted@.map_values(|i: usize| i as int);
    proof {
        assert forall|k: int| 0 <= k < order.len() implies is_scored(query@, names, #[trigger] order[k]) by {
            assert(sorted@.contains(sorted@[k]));
        }
        assert forall|i: int| is_scored(query@, names, i) implies #[trigger] order.contains(i) by {
            assert(queue_contents(queue).contains_key(i as usize));
            assert(sorted@.contains(i as usize));
            let k = choose|k: int| 0 <= k < sorted@.len() && sorted@[k] == i as usize;
            assert(order[k] == i);
        }
        assert forall|k: int, l: int| 0 <= k < l < order.len() implies ranks_before(
            query@,
            names,
            #[trigger] order[k],
            #[trigger] order[l],
        ) by {
            assert(sorted@.contains(sorted@[k]));
            assert(sorted@.contains(sorted@[l]));
            assert(priority_ge(
                queue_contents(queue)[sorted@[k]],
                queue_contents(queue)[sorted@[l]],
            ));
            lemma_priority_order(query@, names, order[k], order[l]);
        }
    }
    sorted
}

} // verus!
