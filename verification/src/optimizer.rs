//! The gear optimizer: exhaustive search for the damage-maximizing
//! selection of `slot_count` echoes under a cost budget.
//!
//! The search walks the pool with the strict apply-evaluate-remove
//! discipline on one shared accumulator; its contract proves both that the
//! accumulator comes back bit-identical after every candidate and that the
//! returned selection is feasible and maximizes the non-crit adjusted
//! damage over every budget-feasible selection.

use vstd::prelude::*;

use crate::calculator::{
    spec_adjusted_damage_noncrit, spec_stats_fit, spec_target_fit, Stats, Target, FLAT_LIMIT,
    LEVEL_LIMIT, MULT_LIMIT,
};
use crate::echo::{
    lemma_apply_echo_fields, lemma_apply_remove_roundtrip, spec_apply_echo, spec_echo_total,
    spec_echo_wf, spec_stats_within, Echo, StatType,
};
use crate::SCALE;

verus! {

/// The optimizer's structured failures.
#[derive(Clone, Copy, PartialEq, Eq, Structural, Debug)]
pub enum OptimizeError {
    /// The pool holds fewer echoes than there are slots to fill.
    InsufficientPoolError,
    /// No selection of the requested size fits the cost budget.
    NoFeasibleSelectionError,
}

/// `c` is a strictly increasing sequence of indices drawn from `[lo, n)`.
pub open spec fn spec_combo_wf(c: Seq<int>, lo: int, n: int) -> bool {
    &&& forall|i: int| 0 <= i < c.len() ==> lo <= #[trigger] c[i] < n
    &&& forall|i: int, j: int| 0 <= i < j < c.len() ==> #[trigger] c[i] < #[trigger] c[j]
}

/// The summed cost of the pool entries that `c` picks.
pub open spec fn spec_combo_cost(pool: Seq<Echo>, c: Seq<int>) -> int
    decreases c.len(),
{
    if c.len() == 0 {
        0
    } else {
        pool[c[0]].cost + spec_combo_cost(pool, c.skip(1))
    }
}

/// The stat record after applying the picked echoes in index order.
pub open spec fn spec_apply_combo(s: Stats, pool: Seq<Echo>, c: Seq<int>) -> Stats
    decreases c.len(),
{
    if c.len() == 0 {
        s
    } else {
        spec_apply_combo(spec_apply_echo(s, pool[c[0]]), pool, c.skip(1))
    }
}

/// The non-crit adjusted damage of the baseline with a selection applied:
/// what the optimizer maximizes.
pub open spec fn spec_combo_damage(
    s: Stats,
    pool: Seq<Echo>,
    c: Seq<int>,
    t: Target,
    cl: int,
    el: int,
) -> int {
    spec_adjusted_damage_noncrit(spec_apply_combo(s, pool, c), t, cl, el)
}

/// Every echo of the pool is well-formed.
pub open spec fn spec_pool_wf(pool: Seq<Echo>) -> bool {
    forall|i: int| 0 <= i < pool.len() ==> spec_echo_wf(#[trigger] pool[i])
}

/// `c` is a feasible selection: `k` distinct indices from `[start, n)` in
/// increasing order whose summed cost fits the budget.
pub open spec fn spec_sel_wf(pool: Seq<Echo>, c: Seq<int>, start: int, k: int, budget: int) -> bool {
    &&& spec_combo_wf(c, start, pool.len() as int)
    &&& c.len() == k
    &&& spec_combo_cost(pool, c) <= budget
}

/// The echoes that an index selection picks from the pool.
pub open spec fn spec_select(pool: Seq<Echo>, c: Seq<int>) -> Seq<Echo> {
    c.map_values(|i: int| pool[i])
}

/// The summed cost of a sequence of echoes.
pub open spec fn spec_echoes_cost(es: Seq<Echo>) -> int
    decreases es.len(),
{
    if es.len() == 0 {
        0
    } else {
        es[0].cost + spec_echoes_cost(es.skip(1))
    }
}

/// The baseline ranges on which the optimizer may apply up to `k` echoes
/// and still call the damage queries: every damage-relevant field keeps
/// headroom for `k` applications (seven deltas each), and the whole record
/// stays far from the integer limits.
pub open spec fn spec_stats_fit_slack(s: Stats, k: int) -> bool {
    &&& spec_stats_within(s, 9_000_000_000_000_000_000int - k * 140_000_000_000)
    &&& 0 <= s.base_atk && s.base_atk + k * 70_000_000_000 <= FLAT_LIMIT
    &&& 0 <= s.atk_flat && s.atk_flat + k * 70_000_000_000 <= FLAT_LIMIT
    &&& 0 <= s.atk_mult && s.atk_mult + k * 70_000_000 <= MULT_LIMIT
    &&& 0 <= s.crit_rate && s.crit_rate + k * 70_000_000 <= MULT_LIMIT
    &&& SCALE <= s.crit_dmg && s.crit_dmg + k * 70_000_000 <= MULT_LIMIT
    &&& 0 <= s.glacio_dmg && s.glacio_dmg + k * 70_000_000 <= MULT_LIMIT
    &&& 0 <= s.fusion_dmg && s.fusion_dmg + k * 70_000_000 <= MULT_LIMIT
    &&& 0 <= s.electro_dmg && s.electro_dmg + k * 70_000_000 <= MULT_LIMIT
    &&& 0 <= s.aero_dmg && s.aero_dmg + k * 70_000_000 <= MULT_LIMIT
    &&& 0 <= s.spectro_dmg && s.spectro_dmg + k * 70_000_000 <= MULT_LIMIT
    &&& 0 <= s.havoc_dmg && s.havoc_dmg + k * 70_000_000 <= MULT_LIMIT
    &&& 0 <= s.skill_dmg && s.skill_dmg + k * 70_000_000 <= MULT_LIMIT
    &&& 0 <= s.basic_dmg && s.basic_dmg + k * 70_000_000 <= MULT_LIMIT
    &&& 0 <= s.heavy_dmg && s.heavy_dmg + k * 70_000_000 <= MULT_LIMIT
    &&& 0 <= s.liberation_dmg && s.liberation_dmg + k * 70_000_000 <= MULT_LIMIT
}

/// The largest amount a delta of the given kind may carry.
pub open spec fn spec_delta_limit(t: StatType) -> int {
    match t {
        StatType::AtkFlat => crate::echo::FLAT_DELTA_LIMIT as int,
        StatType::HpFlat => crate::echo::FLAT_DELTA_LIMIT as int,
        StatType::DefFlat => crate::echo::FLAT_DELTA_LIMIT as int,
        StatType::NoOp => 0,
        _ => crate::echo::MULT_DELTA_LIMIT as int,
    }
}

/// A well-formed echo's total contribution to any one field is
/// nonnegative and at most seven deltas of that field's kind.
proof fn lemma_echo_total_bounds(e: Echo, t: StatType)
    requires
        spec_echo_wf(e),
    ensures
        0 <= spec_echo_total(e, t) <= 7 * spec_delta_limit(t),
{
    reveal(crate::echo::spec_contribution);
}

/// Zero slack means the damage queries' stat ranges hold outright.
proof fn lemma_fit_slack_zero(s: Stats)
    requires
        spec_stats_fit_slack(s, 0),
    ensures
        spec_stats_fit(s),
{
}

/// Applying one well-formed echo consumes one unit of slack.
proof fn lemma_apply_echo_fit_slack(s: Stats, e: Echo, k: int)
    requires
        spec_stats_fit_slack(s, k),
        spec_echo_wf(e),
        1 <= k,
    ensures
        spec_stats_fit_slack(spec_apply_echo(s, e), k - 1),
{
    let b0: int = 9_000_000_000_000_000_000int - k * 140_000_000_000;
    lemma_apply_echo_fields(s, e, b0);
    lemma_echo_total_bounds(e, StatType::AtkFlat);
    lemma_echo_total_bounds(e, StatType::AtkMult);
    lemma_echo_total_bounds(e, StatType::CritRate);
    lemma_echo_total_bounds(e, StatType::CritDmg);
    lemma_echo_total_bounds(e, StatType::GlacioDmg);
    lemma_echo_total_bounds(e, StatType::FusionDmg);
    lemma_echo_total_bounds(e, StatType::ElectroDmg);
    lemma_echo_total_bounds(e, StatType::AeroDmg);
    lemma_echo_total_bounds(e, StatType::SpectroDmg);
    lemma_echo_total_bounds(e, StatType::HavocDmg);
    lemma_echo_total_bounds(e, StatType::SkillDmg);
    lemma_echo_total_bounds(e, StatType::BasicDmg);
    lemma_echo_total_bounds(e, StatType::HeavyDmg);
    lemma_echo_total_bounds(e, StatType::LiberationDmg);
}

/// A strictly increasing index sequence over `[lo, n)` cannot hold more
/// than `n - lo` entries.
proof fn lemma_combo_wf_len(c: Seq<int>, lo: int, n: int)
    requires
        spec_combo_wf(c, lo, n),
        lo <= n,
    ensures
        c.len() <= n - lo,
    decreases c.len(),
{
    if c.len() > 0 {
        let rest = c.skip(1);
        assert forall|i: int| 0 <= i < rest.len() implies c[0] + 1 <= #[trigger] rest[i] < n by {
            assert(rest[i] == c[i + 1]);
            assert(c[0] < c[i + 1]);
        }
        assert forall|i: int, j: int| 0 <= i < j < rest.len() implies #[trigger] rest[i]
            < #[trigger] rest[j] by {
            assert(rest[i] == c[i + 1]);
            assert(rest[j] == c[j + 1]);
        }
        lemma_combo_wf_len(rest, c[0] + 1, n);
    }
}

/// Every selection from a well-formed pool has nonnegative cost.
proof fn lemma_combo_cost_nonneg(pool: Seq<Echo>, c: Seq<int>)
    requires
        spec_pool_wf(pool),
        forall|i: int| 0 <= i < c.len() ==> 0 <= #[trigger] c[i] < pool.len(),
    ensures
        0 <= spec_combo_cost(pool, c),
    decreases c.len(),
{
    if c.len() > 0 {
        let rest = c.skip(1);
        assert forall|i: int| 0 <= i < rest.len() implies 0 <= #[trigger] rest[i]
            < pool.len() by {
            assert(rest[i] == c[i + 1]);
        }
        lemma_combo_cost_nonneg(pool, rest);
        assert(spec_echo_wf(pool[c[0]]));
    }
}

/// Picking echoes by index preserves the summed cost.
proof fn lemma_select_cost(pool: Seq<Echo>, c: Seq<int>)
    requires
        forall|i: int| 0 <= i < c.len() ==> 0 <= #[trigger] c[i] < pool.len(),
    ensures
        spec_echoes_cost(spec_select(pool, c)) == spec_combo_cost(pool, c),
    decreases c.len(),
{
    if c.len() > 0 {
        let rest = c.skip(1);
        assert forall|i: int| 0 <= i < rest.len() implies 0 <= #[trigger] rest[i]
            < pool.len() by {
            assert(rest[i] == c[i + 1]);
        }
        lemma_select_cost(pool, rest);
        assert(spec_select(pool, c).skip(1) =~= spec_select(pool, rest));
        assert(spec_select(pool, c)[0] == pool[c[0]]);
    }
}

/// Exhaustive choose-or-skip search over `pool[start..]` for the best
/// selection of `k` more echoes within `budget`. Each candidate echo is
/// transiently applied to the shared accumulator and removed again; the
/// contract proves the accumulator is returned exactly as it came.
fn search_best(
    stats: &mut Stats,
    pool: &Vec<Echo>,
    target: &Target,
    character_level: isize,
    enemy_level: isize,
    start: usize,
    k: usize,
    budget: isize,
) -> (r: Option<(i128, Vec<usize>)>)
    requires
        spec_pool_wf(pool@),
        spec_stats_fit_slack(*old(stats), k as int),
        spec_target_fit(*target),
        0 <= character_level <= LEVEL_LIMIT,
        0 <= enemy_level <= LEVEL_LIMIT,
        start <= pool@.len(),
    ensures
        *final(stats) == *old(stats),
        match r {
            Option::None => forall|c: Seq<int>|
                !(#[trigger] spec_sel_wf(pool@, c, start as int, k as int, budget as int)),
            Option::Some((d, sel)) => {
                &&& spec_sel_wf(
                    pool@,
                    sel@.map_values(|i: usize| i as int),
                    start as int,
                    k as int,
                    budget as int,
                )
                &&& d == spec_combo_damage(
                    *old(stats),
                    pool@,
                    sel@.map_values(|i: usize| i as int),
                    *target,
                    character_level as int,
                    enemy_level as int,
                )
                &&& forall|c: Seq<int>|
                    #[trigger] spec_sel_wf(pool@, c, start as int, k as int, budget as int)
                        ==> spec_combo_damage(
                        *old(stats),
                        pool@,
                        c,
                        *target,
                        character_level as int,
                        enemy_level as int,
                    ) <= d
            },
        },
    decreases pool@.len() - start as int,
{
    let ghost s0 = *stats;
    let ghost n = pool@.len() as int;
    let ghost start_i = start as int;
    let ghost k_i = k as int;
    let ghost b_i = budget as int;
    let ghost cl_i = character_level as int;
    let ghost el_i = enemy_level as int;
    if k == 0 {
        if budget >= 0 {
            proof {
                lemma_fit_slack_zero(*stats);
            }
            let d = stats.skill_adjusted_damage_noncrit(*target, character_level, enemy_level);
            let sel: Vec<usize> = Vec::new();
            proof {
                assert(sel@.map_values(|i: usize| i as int).len() == 0);
            }
            Option::Some((d, sel))
        } else {
            Option::None
        }
    } else if pool.len() - start < k {
        proof {
            assert forall|c: Seq<int>| !(#[trigger] spec_sel_wf(
                pool@,
                c,
                start_i,
                k_i,
                b_i,
            )) by {
                if spec_sel_wf(pool@, c, start_i, k_i, b_i) {
                    lemma_combo_wf_len(c, start_i, n);
                }
            }
        }
        Option::None
    } else {
        let e: Echo = pool[start];
        proof {
            assert(spec_echo_wf(pool@[start_i]));
        }
        let mut best: Option<(i128, Vec<usize>)> = Option::None;
        let ghost apply_state = spec_apply_echo(s0, e);
        if e.cost <= budget {
            e.add_to_stats(stats);
            proof {
                lemma_apply_echo_fit_slack(s0, e, k_i);
            }
            let sub = search_best(
                stats,
                pool,
                target,
                character_level,
                enemy_level,
                start + 1,
                k - 1,
                budget - e.cost,
            );
            e.remove_from_stats(stats);
            proof {
                lemma_apply_remove_roundtrip(s0, e);
            }
            match sub {
                Option::Some((d, sub_sel)) => {
                    let mut v: Vec<usize> = Vec::new();
                    v.push(start);
                    let mut j: usize = 0;
                    while j < sub_sel.len()
                        invariant
                            j <= sub_sel@.len(),
                            v@.len() == 1 + j as int,
                            v@[0] == start,
                            forall|t: int| 0 <= t < j as int ==> v@[t + 1] == sub_sel@[t],
                        decreases sub_sel@.len() - j as int,
                    {
                        let idx = sub_sel[j];
                        v.push(idx);
                        j = j + 1;
                    }
                    proof {
                        let c_sub = sub_sel@.map_values(|i: usize| i as int);
                        let c_new = v@.map_values(|i: usize| i as int);
                        assert(c_new.len() == 1 + c_sub.len());
                        assert(c_new[0] == start_i);
                        assert forall|t: int| 0 <= t < c_sub.len() implies #[trigger] c_new[t + 1]
                            == c_sub[t] by {
                            assert(v@[t + 1] == sub_sel@[t]);
                        }
                        assert(c_new.skip(1) =~= c_sub);
                        assert forall|i: int| 0 <= i < c_new.len() implies start_i
                            <= #[trigger] c_new[i] < n by {
                            if i > 0 {
                                assert(c_new[i] == c_sub[i - 1]);
                            }
                        }
                        assert forall|i: int, j2: int| 0 <= i < j2 < c_new.len() implies
                            #[trigger] c_new[i] < #[trigger] c_new[j2] by {
                            assert(c_new[j2] == c_sub[j2 - 1]);
                            if i > 0 {
                                assert(c_new[i] == c_sub[i - 1]);
                            }
                        }
                        assert(spec_combo_cost(pool@, c_new) == pool@[start_i].cost
                            + spec_combo_cost(pool@, c_sub));
                        assert(spec_apply_combo(s0, pool@, c_new) == spec_apply_combo(
                            apply_state,
                            pool@,
                            c_sub,
                        ));
                        assert(spec_sel_wf(pool@, c_new, start_i, k_i, b_i));
                    }
                    best = Option::Some((d, v));
                },
                Option::None => {},
            }
        }
        let sub2 = search_best(stats, pool, target, character_level, enemy_level, start + 1, k, budget);
        let result: Option<(i128, Vec<usize>)> = match (best, sub2) {
            (Option::None, Option::None) => Option::None,
            (Option::Some(b1), Option::None) => Option::Some(b1),
            (Option::None, Option::Some(b2)) => Option::Some(b2),
            (Option::Some(b1), Option::Some(b2)) => if b2.0 > b1.0 {
                Option::Some(b2)
            } else {
                Option::Some(b1)
            },
        };
        proof {
            let rd: int = if result is Some {
                result->Some_0.0 as int
            } else {
                0
            };
            assert forall|c: Seq<int>| #[trigger] spec_sel_wf(pool@, c, start_i, k_i, b_i)
                implies result is Some && spec_combo_damage(s0, pool@, c, *target, cl_i, el_i)
                <= rd by {
                assert(c.len() == k_i);
                assert(start_i <= c[0] < n);
                if c[0] == start_i {
                    let rest = c.skip(1);
                    assert forall|i: int| 0 <= i < rest.len() implies start_i + 1
                        <= #[trigger] rest[i] < n by {
                        assert(rest[i] == c[i + 1]);
                        assert(c[0] < c[i + 1]);
                    }
                    assert forall|i: int, j2: int| 0 <= i < j2 < rest.len() implies
                        #[trigger] rest[i] < #[trigger] rest[j2] by {
                        assert(rest[i] == c[i + 1]);
                        assert(rest[j2] == c[j2 + 1]);
                    }
                    lemma_combo_cost_nonneg(pool@, rest);
                    assert(spec_combo_cost(pool@, c) == pool@[start_i].cost + spec_combo_cost(
                        pool@,
                        rest,
                    ));
                    assert(e.cost <= budget);
                    assert(spec_sel_wf(pool@, rest, start_i + 1, k_i - 1, b_i - e.cost));
                    assert(spec_apply_combo(s0, pool@, c) == spec_apply_combo(
                        apply_state,
                        pool@,
                        rest,
                    ));
                } else {
                    assert forall|i: int| 0 <= i < c.len() implies start_i + 1 <= #[trigger] c[i]
                        < n by {
                        if i > 0 {
                            assert(c[0] < c[i]);
                        }
                    }
                    assert(spec_sel_wf(pool@, c, start_i + 1, k_i, b_i));
                }
            }
        }
        result
    }
}

/// Find the damage-maximizing selection of `slot_count` echoes from the
/// pool whose summed cost fits `budget`, evaluating each candidate's
/// non-crit adjusted damage against `target` at the two levels.
///
/// Returns `InsufficientPoolError` when the pool is smaller than the slot
/// count, and `NoFeasibleSelectionError` when no selection of that size
/// fits the budget. On success the chosen echoes are some budget-feasible
/// selection whose damage is at least that of every other budget-feasible
/// selection; among equally good selections, which one comes back is
/// decided by the enumeration order and is not part of the contract.
pub fn optimize(
    stats: Stats,
    echoes: &Vec<Echo>,
    target: Target,
    character_level: isize,
    enemy_level: isize,
    slot_count: usize,
    budget: isize,
) -> (r: Result<Vec<Echo>, OptimizeError>)
    requires
        spec_pool_wf(echoes@),
        spec_stats_fit_slack(stats, slot_count as int),
        spec_target_fit(target),
        0 <= character_level <= LEVEL_LIMIT,
        0 <= enemy_level <= LEVEL_LIMIT,
    ensures
        match r {
            Result::Err(OptimizeError::InsufficientPoolError) => echoes@.len() < slot_count,
            Result::Err(OptimizeError::NoFeasibleSelectionError) => {
                &&& echoes@.len() >= slot_count
                &&& forall|c: Seq<int>|
                    !(#[trigger] spec_sel_wf(echoes@, c, 0, slot_count as int, budget as int))
            },
            Result::Ok(sel) => {
                &&& sel@.len() == slot_count
                &&& spec_echoes_cost(sel@) <= budget
                &&& exists|c: Seq<int>|
                    {
                        &&& #[trigger] spec_sel_wf(echoes@, c, 0, slot_count as int, budget as int)
                        &&& sel@ == spec_select(echoes@, c)
                        &&& forall|c2: Seq<int>|
                            #[trigger] spec_sel_wf(echoes@, c2, 0, slot_count as int, budget as int)
                                ==> spec_combo_damage(
                                stats,
                                echoes@,
                                c2,
                                target,
                                character_level as int,
                                enemy_level as int,
                            ) <= spec_combo_damage(
                                stats,
                                echoes@,
                                c,
                                target,
                                character_level as int,
                                enemy_level as int,
                            )
                    }
            },
        },
{
    if echoes.len() < slot_count {
        return Result::Err(OptimizeError::InsufficientPoolError);
    }
    let mut scratch = stats;
    let found = search_best(
        &mut scratch,
        echoes,
        &target,
        character_level,
        enemy_level,
        0,
        slot_count,
        budget,
    );
    match found {
        Option::None => Result::Err(OptimizeError::NoFeasibleSelectionError),
        Option::Some((d, sel_idx)) => {
            let ghost c = sel_idx@.map_values(|i: usize| i as int);
            let mut out: Vec<Echo> = Vec::new();
            let mut j: usize = 0;
            while j < sel_idx.len()
                invariant
                    j <= sel_idx@.len(),
                    out@.len() == j as int,
                    spec_combo_wf(
                        sel_idx@.map_values(|i: usize| i as int),
                        0,
                        echoes@.len() as int,
                    ),
                    c == sel_idx@.map_values(|i: usize| i as int),
                    forall|t: int| 0 <= t < j as int ==> #[trigger] out@[t] == echoes@[c[t]],
                decreases sel_idx@.len() - j as int,
            {
                proof {
                    assert(c[j as int] == sel_idx@[j as int] as int);
                }
                let idx = sel_idx[j];
                let picked = echoes[idx];
                out.push(picked);
                j = j + 1;
            }
            proof {
                assert(out@ =~= spec_select(echoes@, c));
                lemma_select_cost(echoes@, c);
            }
            Result::Ok(out)
        },
    }
}

} // verus!
