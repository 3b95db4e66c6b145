//! The choice of screens that a budget pays for.
//!
//! Candidates are ranked by the traffic that a unit of price buys, and the
//! ranking is then offered to the budget once, from its top. Densities are
//! compared as fractions, by cross-multiplication, so no rounding can change
//! an order.

use crate::models::screen::Screen;
use vstd::prelude::*;

verus! {

/// Whether the candidate at position `a` stands before the one at `b` in the
/// ranking: it is denser, or it is as dense and comes earlier in `candidates`.
pub open spec fn ranks_before(candidates: Seq<Screen>, a: int, b: int) -> bool {
    candidates[a].denser_than(candidates[b]) || (!candidates[b].denser_than(candidates[a]) && a
        < b)
}

/// Whether `order` ranks the first `n` candidates: it lists the positions of
/// those that are priced, each once, the densest first and, among equals, the
/// earliest first.
pub open spec fn ranks_first(candidates: Seq<Screen>, n: int, order: Seq<int>) -> bool {
    &&& forall|k: int|
        0 <= k < order.len() ==> 0 <= #[trigger] order[k] < n && candidates[order[k]].priced()
    &&& forall|i: int| 0 <= i < n && #[trigger] candidates[i].priced() ==> order.contains(i)
    &&& forall|j: int, k: int|
        0 <= j < k < order.len() ==> ranks_before(
            candidates,
            #[trigger] order[j],
            #[trigger] order[k],
        )
}

/// Whether `order` ranks all of `candidates`.
pub open spec fn is_ranking(candidates: Seq<Screen>, order: Seq<int>) -> bool {
    ranks_first(candidates, candidates.len() as int, order)
}

/// Where position `i` goes into `order`: behind every position that is at
/// least as dense, before all that it is denser than.
pub open spec fn place_of(candidates: Seq<Screen>, order: Seq<int>, i: int) -> int
    decreases order.len(),
{
    if order.len() > 0 && candidates[i].denser_than(candidates[order.last()]) {
        place_of(candidates, order.drop_last(), i)
    } else {
        order.len() as int
    }
}

/// The ranking of the first `n` candidates, built by putting each priced one
/// in its place among those before it.
pub open spec fn ranking_of_first(candidates: Seq<Screen>, n: nat) -> Seq<int>
    decreases n,
{
    if n == 0 {
        Seq::empty()
    } else {
        let before = ranking_of_first(candidates, (n - 1) as nat);
        if candidates[n - 1].priced() {
            before.insert(place_of(candidates, before, n - 1), n - 1)
        } else {
            before
        }
    }
}

/// The positions of the priced candidates, the densest first; of two that are
/// as dense, the one that comes first in `candidates` stays first.
pub open spec fn ranking(candidates: Seq<Screen>) -> Seq<int> {
    ranking_of_first(candidates, candidates.len())
}

/// The positions that a vector of indices holds.
pub open spec fn positions(order: Seq<usize>) -> Seq<int> {
    Seq::new(order.len(), |k: int| order[k] as int)
}

/// Density is a fraction with a positive denominator, so "not denser" is
/// transitive.
proof fn lemma_not_denser_transitive(
    traffic_a: int,
    price_a: int,
    traffic_b: int,
    price_b: int,
    traffic_c: int,
    price_c: int,
)
    by (nonlinear_arith)
    requires
        price_a > 0,
        price_b > 0,
        price_c > 0,
        traffic_a * price_b <= traffic_b * price_a,
        traffic_b * price_c <= traffic_c * price_b,
    ensures
        traffic_a * price_c <= traffic_c * price_a,
{
    assert(traffic_a * price_b * price_c <= traffic_b * price_a * price_c);
    assert(traffic_b * price_c * price_a <= traffic_c * price_b * price_a);
    assert(traffic_b * price_a * price_c == traffic_b * price_c * price_a);
    assert((traffic_a * price_c) * price_b <= (traffic_c * price_a) * price_b);
}

/// Among priced screens, `a` not denser than `b` and `b` not denser than `c`
/// leaves `a` not denser than `c`.
pub proof fn lemma_density_order(a: Screen, b: Screen, c: Screen)
    requires
        a.priced(),
        b.priced(),
        c.priced(),
        !a.denser_than(b),
        !b.denser_than(c),
    ensures
        !a.denser_than(c),
{
    lemma_not_denser_transitive(
        a.traffic as int,
        a.price_per_time as int,
        b.traffic as int,
        b.price_per_time as int,
        c.traffic as int,
        c.price_per_time as int,
    );
}

/// `place_of` is the one place `p` with all of `order` from `p` on less dense
/// than the candidate at `i`, and the position before `p` not.
proof fn lemma_place_of(candidates: Seq<Screen>, order: Seq<int>, i: int, p: int)
    requires
        0 <= p <= order.len(),
        forall|k: int|
            p <= k < order.len() ==> candidates[i].denser_than(candidates[#[trigger] order[k]]),
        p > 0 ==> !candidates[i].denser_than(candidates[order[p - 1]]),
    ensures
        place_of(candidates, order, i) == p,
    decreases order.len(),
{
    if p < order.len() {
        assert(candidates[i].denser_than(candidates[order[order.len() - 1]]));
        lemma_place_of(candidates, order.drop_last(), i, p);
    }
}

/// What `place_of` promises of the place it names.
proof fn lemma_place_of_bounds(candidates: Seq<Screen>, order: Seq<int>, i: int)
    ensures
        0 <= place_of(candidates, order, i) <= order.len(),
        forall|k: int|
            place_of(candidates, order, i) <= k < order.len() ==> candidates[i].denser_than(
                candidates[#[trigger] order[k]],
            ),
        place_of(candidates, order, i) > 0 ==> !candidates[i].denser_than(
            candidates[order[place_of(candidates, order, i) - 1]],
        ),
    decreases order.len(),
{
    if order.len() > 0 && candidates[i].denser_than(candidates[order.last()]) {
        let rest = order.drop_last();
        lemma_place_of_bounds(candidates, rest, i);
        let p = place_of(candidates, order, i);
        assert forall|k: int| p <= k < order.len() implies candidates[i].denser_than(
            candidates[#[trigger] order[k]],
        ) by {
            if k < rest.len() {
                assert(order[k] == rest[k]);
            }
        }
    }
}

/// Putting the next priced candidate in its place keeps a ranking a ranking.
proof fn lemma_insert_keeps_ranking(candidates: Seq<Screen>, order: Seq<int>, i: int)
    requires
        0 <= i < candidates.len(),
        candidates[i].priced(),
        ranks_first(candidates, i, order),
    ensures
        ranks_first(candidates, i + 1, order.insert(place_of(candidates, order, i), i)),
{
    let p = place_of(candidates, order, i);
    let next = order.insert(p, i);
    lemma_place_of_bounds(candidates, order, i);
    assert forall|k: int| 0 <= k < next.len() implies 0 <= #[trigger] next[k] < i + 1
        && candidates[next[k]].priced() by {
        if k < p {
            assert(next[k] == order[k]);
        } else if k > p {
            assert(next[k] == order[k - 1]);
        }
    }
    assert forall|j: int| 0 <= j < i + 1 && #[trigger] candidates[j].priced() implies next.contains(
        j,
    ) by {
        if j == i {
            assert(next[p] == i);
        } else {
            assert(order.contains(j));
            let at = choose|at: int| 0 <= at < order.len() && order[at] == j;
            if at < p {
                assert(next[at] == j);
            } else {
                assert(next[at + 1] == j);
            }
        }
    }
    // No position before the place is less dense than the newcomer.
    assert forall|j: int| 0 <= j < p implies !candidates[i].denser_than(
        candidates[#[trigger] order[j]],
    ) by {
        if j < p - 1 {
            assert(ranks_before(candidates, order[j], order[p - 1]));
            lemma_density_order(candidates[i], candidates[order[p - 1]], candidates[order[j]]);
        }
    }
    assert forall|j: int, k: int| 0 <= j < k < next.len() implies ranks_before(
        candidates,
        #[trigger] next[j],
        #[trigger] next[k],
    ) by {
        if k < p {
            assert(next[j] == order[j] && next[k] == order[k]);
        } else if k == p {
            assert(next[j] == order[j] && next[k] == i);
        } else if j < p {
            assert(next[j] == order[j] && next[k] == order[k - 1]);
        } else if j == p {
            assert(next[j] == i && next[k] == order[k - 1]);
        } else {
            assert(next[j] == order[j - 1] && next[k] == order[k - 1]);
        }
    }
}

/// The ranking of the first `n` candidates ranks them.
pub proof fn lemma_ranking_of_first(candidates: Seq<Screen>, n: nat)
    requires
        n <= candidates.len(),
    ensures
        ranks_first(candidates, n as int, ranking_of_first(candidates, n)),
    decreases n,
{
    if n > 0 {
        let before = ranking_of_first(candidates, (n - 1) as nat);
        lemma_ranking_of_first(candidates, (n - 1) as nat);
        if candidates[n - 1].priced() {
            lemma_insert_keeps_ranking(candidates, before, n - 1);
        } else {
            assert forall|i: int|
                0 <= i < n && #[trigger] candidates[i].priced() implies before.contains(i) by {}
        }
    }
}

/// `ranking` lists the positions of the priced candidates, each once, in
/// order of falling density and, among equals, of position.
pub proof fn lemma_ranking_is_ranking(candidates: Seq<Screen>)
    ensures
        is_ranking(candidates, ranking(candidates)),
{
    lemma_ranking_of_first(candidates, candidates.len());
}

/// Two sequences of positions that hold the same positions, each in ranking
/// order, are the same sequence.
proof fn lemma_same_positions_same_order(candidates: Seq<Screen>, a: Seq<int>, b: Seq<int>)
    requires
        forall|j: int, k: int|
            0 <= j < k < a.len() ==> ranks_before(candidates, #[trigger] a[j], #[trigger] a[k]),
        forall|j: int, k: int|
            0 <= j < k < b.len() ==> ranks_before(candidates, #[trigger] b[j], #[trigger] b[k]),
        forall|x: int| a.contains(x) <==> b.contains(x),
    ensures
        a == b,
    decreases a.len(),
{
    if a.len() == 0 {
        if b.len() > 0 {
            assert(b.contains(b[0]));
        }
        assert(a =~= b);
    } else {
        let last = a.last();
        assert(a.contains(last));
        let q = choose|q: int| 0 <= q < b.len() && b[q] == last;
        let other = b.last();
        assert(b.contains(other));
        let j = choose|j: int| 0 <= j < a.len() && a[j] == other;
        if q < b.len() - 1 {
            assert(ranks_before(candidates, b[q], b[b.len() - 1]));
            if j < a.len() - 1 {
                assert(ranks_before(candidates, a[j], a[a.len() - 1]));
            }
            assert(false);
        }
        let a_rest = a.drop_last();
        let b_rest = b.drop_last();
        assert forall|x: int| a_rest.contains(x) <==> b_rest.contains(x) by {
            if a_rest.contains(x) {
                let at = choose|at: int| 0 <= at < a_rest.len() && a_rest[at] == x;
                assert(ranks_before(candidates, a[at], a[a.len() - 1]));
                assert(a.contains(x));
                let to = choose|to: int| 0 <= to < b.len() && b[to] == x;
                assert(b_rest[to] == x);
            }
            if b_rest.contains(x) {
                let at = choose|at: int| 0 <= at < b_rest.len() && b_rest[at] == x;
                assert(ranks_before(candidates, b[at], b[b.len() - 1]));
                assert(b.contains(x));
                let to = choose|to: int| 0 <= to < a.len() && a[to] == x;
                assert(a_rest[to] == x);
            }
        }
        assert forall|j: int, k: int| 0 <= j < k < a_rest.len() implies ranks_before(
            candidates,
            #[trigger] a_rest[j],
            #[trigger] a_rest[k],
        ) by {
            assert(a_rest[j] == a[j] && a_rest[k] == a[k]);
        }
        assert forall|j: int, k: int| 0 <= j < k < b_rest.len() implies ranks_before(
            candidates,
            #[trigger] b_rest[j],
            #[trigger] b_rest[k],
        ) by {
            assert(b_rest[j] == b[j] && b_rest[k] == b[k]);
        }
        lemma_same_positions_same_order(candidates, a_rest, b_rest);
        assert(a =~= a_rest.push(last));
        assert(b =~= b_rest.push(last));
    }
}

/// There is one ranking only: whatever lists the positions of the priced
/// candidates in order of falling density, equals first come first, is
/// `ranking`.
pub proof fn lemma_ranking_is_unique(candidates: Seq<Screen>, order: Seq<int>)
    requires
        is_ranking(candidates, order),
    ensures
        order == ranking(candidates),
{
    let ranked = ranking(candidates);
    lemma_ranking_is_ranking(candidates);
    assert forall|x: int| order.contains(x) <==> ranked.contains(x) by {
        if order.contains(x) {
            let at = choose|at: int| 0 <= at < order.len() && order[at] == x;
            assert(0 <= order[at] < candidates.len() && candidates[order[at]].priced());
            assert(candidates[x].priced());
        }
        if ranked.contains(x) {
            let at = choose|at: int| 0 <= at < ranked.len() && ranked[at] == x;
            assert(0 <= ranked[at] < candidates.len() && candidates[ranked[at]].priced());
            assert(candidates[x].priced());
        }
    }
    lemma_same_positions_same_order(candidates, order, ranked);
}

/// Ranks the candidates: the positions of those with a positive price, the
/// densest first; among equally dense ones the earlier stays first.
pub fn rank_screens(candidates: &Vec<Screen>) -> (order: Vec<usize>)
    ensures
        positions(order@) == ranking(candidates@),
{
    let mut order: Vec<usize> = Vec::new();
    let mut i: usize = 0;
    while i < candidates.len()
        invariant
            i <= candidates.len(),
            order.len() <= i,
            forall|k: int| 0 <= k < order.len() ==> #[trigger] order@[k] < i,
            positions(order@) == ranking_of_first(candidates@, i as nat),
            ranks_first(candidates@, i as int, positions(order@)),
        decreases candidates.len() - i,
    {
        if candidates[i].price_per_time > 0 {
            let ghost before = positions(order@);
            let mut p: usize = order.len();
            while p > 0 && candidates[i].is_denser_than(&candidates[order[p - 1]])
                invariant
                    i < candidates.len(),
                    p <= order.len(),
                    forall|k: int| 0 <= k < order.len() ==> #[trigger] order@[k] < i,
                    before == positions(order@),
                    ranks_first(candidates@, i as int, before),
                    forall|k: int|
                        p <= k < before.len() ==> candidates@[i as int].denser_than(
                            candidates@[#[trigger] before[k]],
                        ),
                decreases p,
            {
                p -= 1;
            }
            proof {
                lemma_place_of(candidates@, before, i as int, p as int);
                lemma_insert_keeps_ranking(candidates@, before, i as int);
            }
            order.insert(p, i);
            assert(positions(order@) =~= before.insert(p as int, i as int));
        } else {
            proof {
                let before = positions(order@);
                assert forall|j: int|
                    0 <= j < i + 1 && #[trigger] candidates@[j].priced() implies before.contains(
                    j,
                ) by {}
            }
        }
        i += 1;
    }
    order
}

/// What is left of `budget` when the positions in `order` have been offered in
/// turn, each one taken if and only if its price fits into what is then left.
pub open spec fn left_after(candidates: Seq<Screen>, order: Seq<int>, budget: int) -> int
    decreases order.len(),
{
    if order.len() == 0 {
        budget
    } else {
        let left = left_after(candidates, order.drop_last(), budget);
        let price = candidates[order.last()].price_per_time as int;
        if price <= left {
            left - price
        } else {
            left
        }
    }
}

/// The positions of `order` that are taken when they are offered in turn: a
/// position is taken if and only if its price fits into what the ones before
/// it have left of `budget`, and one that is passed over is never looked at
/// again.
pub open spec fn accepted(candidates: Seq<Screen>, order: Seq<int>, budget: int) -> Seq<int>
    decreases order.len(),
{
    if order.len() == 0 {
        Seq::empty()
    } else {
        let before = accepted(candidates, order.drop_last(), budget);
        let left = left_after(candidates, order.drop_last(), budget);
        if candidates[order.last()].price_per_time as int <= left {
            before.push(order.last())
        } else {
            before
        }
    }
}

/// The candidates at the given positions.
pub open spec fn screens_at(candidates: Seq<Screen>, at: Seq<int>) -> Seq<Screen> {
    Seq::new(at.len(), |k: int| candidates[at[k]])
}

/// The sum of the prices of `screens`.
pub open spec fn total_price(screens: Seq<Screen>) -> int
    decreases screens.len(),
{
    if screens.len() == 0 {
        0
    } else {
        total_price(screens.drop_last()) + screens.last().price_per_time as int
    }
}

/// The positions of the candidates that `budget` buys: the ranking, offered
/// from its top.
pub open spec fn optimal_positions(budget: u64, candidates: Seq<Screen>) -> Seq<int> {
    accepted(candidates, ranking(candidates), budget as int)
}

/// The screens that `budget` buys of `candidates`, in the order in which
/// they were taken.
pub open spec fn optimal_screens(budget: u64, candidates: Seq<Screen>) -> Seq<Screen> {
    screens_at(candidates, optimal_positions(budget, candidates))
}

/// Whether `part` is `whole` with some of its items left out: `part[k]` is
/// `whole[from[k]]`, and `from` rises.
pub open spec fn picks_from(part: Seq<int>, whole: Seq<int>, from: Seq<int>) -> bool {
    &&& from.len() == part.len()
    &&& forall|k: int|
        0 <= k < part.len() ==> 0 <= #[trigger] from[k] < whole.len() && part[k] == whole[from[k]]
    &&& forall|j: int, k: int| 0 <= j < k < part.len() ==> #[trigger] from[j] < #[trigger] from[k]
}

/// What is taken and what is left add up to the budget, and nothing is
/// overdrawn.
pub proof fn lemma_budget_is_kept(candidates: Seq<Screen>, order: Seq<int>, budget: int)
    requires
        budget >= 0,
    ensures
        left_after(candidates, order, budget) >= 0,
        total_price(screens_at(candidates, accepted(candidates, order, budget))) + left_after(
            candidates,
            order,
            budget,
        ) == budget,
    decreases order.len(),
{
    if order.len() > 0 {
        let rest = order.drop_last();
        lemma_budget_is_kept(candidates, rest, budget);
        let before = accepted(candidates, rest, budget);
        if candidates[order.last()].price_per_time as int <= left_after(candidates, rest, budget) {
            let taken = screens_at(candidates, before.push(order.last()));
            assert(taken.drop_last() =~= screens_at(candidates, before));
            assert(taken.last() == candidates[order.last()]);
        }
    } else {
        assert(screens_at(candidates, accepted(candidates, order, budget)) =~= Seq::<
            Screen,
        >::empty());
    }
}

/// The positions taken are positions of `order`, in the order in which they
/// stand there.
pub proof fn lemma_accepted_picks_from(
    candidates: Seq<Screen>,
    order: Seq<int>,
    budget: int,
) -> (from: Seq<int>)
    ensures
        picks_from(accepted(candidates, order, budget), order, from),
    decreases order.len(),
{
    if order.len() == 0 {
        Seq::empty()
    } else {
        let rest = order.drop_last();
        let earlier = lemma_accepted_picks_from(candidates, rest, budget);
        let before = accepted(candidates, rest, budget);
        assert forall|k: int| 0 <= k < before.len() implies before[k] == order[(
        #[trigger] earlier[k])] by {
            assert(rest[earlier[k]] == order[earlier[k]]);
        }
        if candidates[order.last()].price_per_time as int <= left_after(candidates, rest, budget) {
            earlier.push(order.len() - 1)
        } else {
            earlier
        }
    }
}

/// Law: the screens chosen never cost more than the budget.
pub proof fn lemma_choice_within_budget(budget: u64, candidates: Seq<Screen>)
    ensures
        total_price(optimal_screens(budget, candidates)) <= budget,
{
    lemma_budget_is_kept(candidates, ranking(candidates), budget as int);
}

/// Law: the choice keeps the ranking. Every chosen position is that of a
/// priced candidate, none is chosen twice, and of two chosen screens the
/// earlier one is denser, or as dense and earlier in the input. Where no two
/// candidates are equally dense, the choice is therefore in order of strictly
/// falling density.
pub proof fn lemma_choice_is_ranked(budget: u64, candidates: Seq<Screen>)
    ensures
        forall|k: int|
            0 <= k < optimal_positions(budget, candidates).len() ==> 0 <= (
            #[trigger] optimal_positions(budget, candidates)[k]) < candidates.len()
                && candidates[optimal_positions(budget, candidates)[k]].priced(),
        forall|a: int, b: int|
            0 <= a < b < optimal_positions(budget, candidates).len() ==> ranks_before(
                candidates,
                #[trigger] optimal_positions(budget, candidates)[a],
                #[trigger] optimal_positions(budget, candidates)[b],
            ),
        forall|a: int, b: int|
            0 <= a < b < optimal_positions(budget, candidates).len() ==> (
            #[trigger] optimal_positions(budget, candidates)[a]) != (
            #[trigger] optimal_positions(budget, candidates)[b]),
{
    let order = ranking(candidates);
    let chosen = optimal_positions(budget, candidates);
    lemma_ranking_is_ranking(candidates);
    let from = lemma_accepted_picks_from(candidates, order, budget as int);
    assert forall|k: int| 0 <= k < chosen.len() implies 0 <= (#[trigger] chosen[k])
        < candidates.len() && candidates[chosen[k]].priced() by {
        assert(chosen[k] == order[from[k]]);
    }
    assert forall|a: int, b: int| 0 <= a < b < chosen.len() implies ranks_before(
        candidates,
        #[trigger] chosen[a],
        #[trigger] chosen[b],
    ) && chosen[a] != chosen[b] by {
        assert(chosen[a] == order[from[a]]);
        assert(chosen[b] == order[from[b]]);
        assert(from[a] < from[b]);
        assert(ranks_before(candidates, order[from[a]], order[from[b]]));
    }
}

/// Whether no two priced candidates are equally dense.
pub open spec fn no_ties(candidates: Seq<Screen>) -> bool {
    forall|i: int, j: int|
        0 <= i < j < candidates.len() && candidates[i].priced() && candidates[j].priced() ==> (
        #[trigger] candidates[i].denser_than(candidates[j])) || candidates[j].denser_than(
            candidates[i],
        )
}

/// Law: where no two priced candidates are equally dense, the chosen screens
/// come in order of strictly falling density, whatever order the candidates
/// came in.
pub proof fn lemma_choice_without_ties(budget: u64, candidates: Seq<Screen>)
    requires
        no_ties(candidates),
    ensures
        forall|a: int, b: int|
            0 <= a < b < optimal_positions(budget, candidates).len() ==> candidates[(
            #[trigger] optimal_positions(budget, candidates)[a])].denser_than(
                candidates[(#[trigger] optimal_positions(budget, candidates)[b])],
            ),
{
    let chosen = optimal_positions(budget, candidates);
    lemma_choice_is_ranked(budget, candidates);
    assert forall|a: int, b: int| 0 <= a < b < chosen.len() implies candidates[(
    #[trigger] chosen[a])].denser_than(candidates[(#[trigger] chosen[b])]) by {
        let first = chosen[a];
        let second = chosen[b];
        assert(ranks_before(candidates, first, second));
        assert(first != second);
        if first < second {
            assert(candidates[first].denser_than(candidates[second])
                || candidates[second].denser_than(candidates[first]));
        } else {
            assert(candidates[second].denser_than(candidates[first])
                || candidates[first].denser_than(candidates[second]));
        }
    }
}

/// Two sequences of screens that hold the same screens, each in order of
/// strictly falling density, are the same sequence.
proof fn lemma_falling_same_screens(s: Seq<Screen>, t: Seq<Screen>)
    requires
        forall|j: int, k: int|
            0 <= j < k < s.len() ==> (#[trigger] s[j]).denser_than(#[trigger] s[k]),
        forall|j: int, k: int|
            0 <= j < k < t.len() ==> (#[trigger] t[j]).denser_than(#[trigger] t[k]),
        forall|x: Screen| s.contains(x) <==> t.contains(x),
    ensures
        s == t,
    decreases s.len(),
{
    if s.len() == 0 {
        if t.len() > 0 {
            assert(t.contains(t[0]));
        }
        assert(s =~= t);
    } else {
        let last = s.last();
        assert(s.contains(last));
        let q = choose|q: int| 0 <= q < t.len() && t[q] == last;
        let other = t.last();
        assert(t.contains(other));
        let j = choose|j: int| 0 <= j < s.len() && s[j] == other;
        if q < t.len() - 1 {
            assert(t[q].denser_than(t[t.len() - 1]));
            if j < s.len() - 1 {
                assert(s[j].denser_than(s[s.len() - 1]));
            }
            assert(false);
        }
        let s_rest = s.drop_last();
        let t_rest = t.drop_last();
        assert forall|x: Screen| s_rest.contains(x) <==> t_rest.contains(x) by {
            if s_rest.contains(x) {
                let at = choose|at: int| 0 <= at < s_rest.len() && s_rest[at] == x;
                assert(s[at].denser_than(s[s.len() - 1]));
                assert(s.contains(x));
                let to = choose|to: int| 0 <= to < t.len() && t[to] == x;
                assert(t_rest[to] == x);
            }
            if t_rest.contains(x) {
                let at = choose|at: int| 0 <= at < t_rest.len() && t_rest[at] == x;
                assert(t[at].denser_than(t[t.len() - 1]));
                assert(t.contains(x));
                let to = choose|to: int| 0 <= to < s.len() && s[to] == x;
                assert(s_rest[to] == x);
            }
        }
        assert forall|j: int, k: int| 0 <= j < k < s_rest.len() implies (
        #[trigger] s_rest[j]).denser_than(#[trigger] s_rest[k]) by {
            assert(s_rest[j] == s[j] && s_rest[k] == s[k]);
        }
        assert forall|j: int, k: int| 0 <= j < k < t_rest.len() implies (
        #[trigger] t_rest[j]).denser_than(#[trigger] t_rest[k]) by {
            assert(t_rest[j] == t[j] && t_rest[k] == t[k]);
        }
        lemma_falling_same_screens(s_rest, t_rest);
        assert(s =~= s_rest.push(last));
        assert(t =~= t_rest.push(last));
    }
}

/// The ranked screens are the priced candidates.
proof fn lemma_ranked_screens_are_the_priced(candidates: Seq<Screen>, x: Screen)
    ensures
        screens_at(candidates, ranking(candidates)).contains(x) <==> candidates.contains(x)
            && x.priced(),
{
    let order = ranking(candidates);
    let ranked = screens_at(candidates, order);
    lemma_ranking_is_ranking(candidates);
    if ranked.contains(x) {
        let k = choose|k: int| 0 <= k < ranked.len() && ranked[k] == x;
        assert(0 <= order[k] < candidates.len() && candidates[order[k]].priced());
        assert(candidates[order[k]] == x);
    }
    if candidates.contains(x) && x.priced() {
        let i = choose|i: int| 0 <= i < candidates.len() && candidates[i] == x;
        assert(candidates[i].priced());
        assert(order.contains(i));
        let k = choose|k: int| 0 <= k < order.len() && order[k] == i;
        assert(ranked[k] == x);
    }
}

/// Where no two priced candidates are equally dense, the ranked screens
/// come in order of strictly falling density.
proof fn lemma_ranked_screens(candidates: Seq<Screen>)
    requires
        no_ties(candidates),
    ensures
        forall|j: int, k: int|
            0 <= j < k < ranking(candidates).len() ==> (#[trigger] screens_at(
                candidates,
                ranking(candidates),
            )[j]).denser_than(#[trigger] screens_at(candidates, ranking(candidates))[k]),
{
    let order = ranking(candidates);
    let ranked = screens_at(candidates, order);
    lemma_ranking_is_ranking(candidates);
    assert forall|j: int, k: int| 0 <= j < k < order.len() implies (
    #[trigger] ranked[j]).denser_than(#[trigger] ranked[k]) by {
        let first = order[j];
        let second = order[k];
        assert(ranks_before(candidates, first, second));
        if first < second {
            assert(candidates[first].denser_than(candidates[second])
                || candidates[second].denser_than(candidates[first]));
        } else if second < first {
            assert(candidates[second].denser_than(candidates[first])
                || candidates[first].denser_than(candidates[second]));
        }
    }
}

/// Offering the same screens in the same order to the same budget takes the
/// same screens and leaves the same, wherever the screens were listed.
proof fn lemma_same_offer_same_choice(
    a: Seq<Screen>,
    order_a: Seq<int>,
    b: Seq<Screen>,
    order_b: Seq<int>,
    budget: int,
)
    requires
        screens_at(a, order_a) == screens_at(b, order_b),
    ensures
        left_after(a, order_a, budget) == left_after(b, order_b, budget),
        screens_at(a, accepted(a, order_a, budget)) == screens_at(
            b,
            accepted(b, order_b, budget),
        ),
    decreases order_a.len(),
{
    assert(order_a.len() == screens_at(a, order_a).len());
    assert(order_b.len() == screens_at(b, order_b).len());
    if order_a.len() == 0 {
        assert(screens_at(a, accepted(a, order_a, budget)) =~= screens_at(
            b,
            accepted(b, order_b, budget),
        ));
    } else {
        let rest_a = order_a.drop_last();
        let rest_b = order_b.drop_last();
        assert(screens_at(a, rest_a) =~= screens_at(a, order_a).drop_last());
        assert(screens_at(b, rest_b) =~= screens_at(b, order_b).drop_last());
        assert(a[order_a.last()] == screens_at(a, order_a).last());
        assert(b[order_b.last()] == screens_at(b, order_b).last());
        lemma_same_offer_same_choice(a, rest_a, b, rest_b, budget);
        let before_a = accepted(a, rest_a, budget);
        let before_b = accepted(b, rest_b, budget);
        if a[order_a.last()].price_per_time as int <= left_after(a, rest_a, budget) {
            assert(screens_at(a, before_a.push(order_a.last())) =~= screens_at(a, before_a).push(
                a[order_a.last()],
            ));
            assert(screens_at(b, before_b.push(order_b.last())) =~= screens_at(b, before_b).push(
                b[order_b.last()],
            ));
        }
    }
}

/// Law: where no two priced candidates are equally dense, the choice does
/// not depend on the order in which the candidates are listed: two lists
/// that hold the same screens give the same screens in the same order.
pub proof fn lemma_choice_ignores_listing_order(budget: u64, a: Seq<Screen>, b: Seq<Screen>)
    requires
        no_ties(a),
        no_ties(b),
        forall|x: Screen| a.contains(x) <==> b.contains(x),
    ensures
        optimal_screens(budget, a) == optimal_screens(budget, b),
{
    lemma_ranked_screens(a);
    lemma_ranked_screens(b);
    let ranked_a = screens_at(a, ranking(a));
    let ranked_b = screens_at(b, ranking(b));
    assert forall|x: Screen| ranked_a.contains(x) <==> ranked_b.contains(x) by {
        lemma_ranked_screens_are_the_priced(a, x);
        lemma_ranked_screens_are_the_priced(b, x);
    }
    lemma_falling_same_screens(ranked_a, ranked_b);
    lemma_same_offer_same_choice(a, ranking(a), b, ranking(b), budget as int);
}

/// Chooses the screens that `user_budget` buys among `candidate_screens`.
///
/// The candidates with a positive price are ranked by the traffic that a unit
/// of price buys, the densest first, equally dense ones in the order in which
/// they came. They are then offered once each, from the top: a screen is
/// taken if its price fits into what is left of the budget, and passed over
/// for good if not. The result is what was taken, in that order. It is a
/// greedy choice: it need not be the set with the most traffic.
pub fn select_optimal_screens(user_budget: u64, candidate_screens: &Vec<Screen>) -> (chosen: Vec<
    Screen,
>)
    ensures
        chosen@ == optimal_screens(user_budget, candidate_screens@),
        total_price(chosen@) <= user_budget,
{
    let order = rank_screens(candidate_screens);
    let ghost ranked = ranking(candidate_screens@);
    let mut chosen: Vec<Screen> = Vec::new();
    let mut remaining: u64 = user_budget;
    let mut k: usize = 0;
    proof {
        lemma_ranking_is_ranking(candidate_screens@);
        lemma_choice_within_budget(user_budget, candidate_screens@);
    }
    while k < order.len()
        invariant
            k <= order.len(),
            positions(order@) == ranked,
            is_ranking(candidate_screens@, ranked),
            remaining as int == left_after(
                candidate_screens@,
                ranked.take(k as int),
                user_budget as int,
            ),
            chosen@ == screens_at(
                candidate_screens@,
                accepted(candidate_screens@, ranked.take(k as int), user_budget as int),
            ),
        decreases order.len() - k,
    {
        let ghost done = ranked.take(k as int);
        let ghost next = ranked.take(k + 1);
        assert(next.drop_last() =~= done);
        assert(next.last() == ranked[k as int]);
        assert(ranked[k as int] == order@[k as int] as int);
        let screen = &candidate_screens[order[k]];
        if screen.price_per_time <= remaining {
            chosen.push(screen.clone());
            remaining = remaining - screen.price_per_time;
            assert(chosen@ =~= screens_at(
                candidate_screens@,
                accepted(candidate_screens@, next, user_budget as int),
            ));
        }
        k += 1;
    }
    assert(ranked.take(k as int) =~= ranked);
    chosen
}

} // verus!
