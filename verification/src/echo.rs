//! Echoes: equippable modifiers and their reversible effect on a stat
//! record.
//!
//! An [`Echo`] carries a cost and seven stat deltas (a main slot, a
//! secondary slot and five substat slots; unused slots hold the no-op
//! sentinel). Applying and removing share one data-driven dispatch from
//! kind tag to stat field, applied with a sign, so the two directions
//! cannot drift apart; [`lemma_apply_remove_roundtrip`] proves that a
//! removal exactly undoes an application.

use vstd::prelude::*;

use crate::calculator::Stats;

verus! {

/// Largest delta amount for the flat-offset kinds: 10^4 in real units.
pub const FLAT_DELTA_LIMIT: i64 = 10_000_000_000;

/// Largest delta amount for the multiplier-style kinds: 10 in real units.
pub const MULT_DELTA_LIMIT: i64 = 10_000_000;

/// Largest cost of a single echo.
pub const COST_LIMIT: isize = 1_000_000_000;

/// The kinds of stat modification an echo slot can carry; `NoOp` is the
/// sentinel that pads unused slots and changes nothing.
#[derive(Clone, Copy)]
pub enum StatType {
    AtkFlat,
    AtkMult,
    HpFlat,
    HpMult,
    DefFlat,
    DefMult,
    GlacioDmg,
    FusionDmg,
    ElectroDmg,
    AeroDmg,
    SpectroDmg,
    HavocDmg,
    EnergyRegen,
    CritRate,
    CritDmg,
    Healing,
    SkillDmg,
    BasicDmg,
    HeavyDmg,
    LiberationDmg,
    NoOp,
}

/// Every stat field of `s` lies within `[-b, b]`.
pub open spec fn spec_stats_within(s: Stats, b: int) -> bool {
    &&& -b <= s.base_atk <= b
    &&& -b <= s.base_hp <= b
    &&& -b <= s.base_def <= b
    &&& -b <= s.hp_flat <= b
    &&& -b <= s.atk_flat <= b
    &&& -b <= s.def_flat <= b
    &&& -b <= s.hp_mult <= b
    &&& -b <= s.atk_mult <= b
    &&& -b <= s.def_mult <= b
    &&& -b <= s.crit_rate <= b
    &&& -b <= s.crit_dmg <= b
    &&& -b <= s.energy_regen <= b
    &&& -b <= s.glacio_dmg <= b
    &&& -b <= s.fusion_dmg <= b
    &&& -b <= s.electro_dmg <= b
    &&& -b <= s.aero_dmg <= b
    &&& -b <= s.spectro_dmg <= b
    &&& -b <= s.havoc_dmg <= b
    &&& -b <= s.skill_dmg <= b
    &&& -b <= s.basic_dmg <= b
    &&& -b <= s.heavy_dmg <= b
    &&& -b <= s.liberation_dmg <= b
    &&& -b <= s.healing_bonus <= b
}

/// The amount range a delta of the given kind may carry: nonnegative, with
/// a wider limit for the flat-offset kinds, and exactly zero for the no-op
/// sentinel.
pub open spec fn spec_delta_ok(kind: StatType, v: i64) -> bool {
    match kind {
        StatType::AtkFlat => 0 <= v <= FLAT_DELTA_LIMIT,
        StatType::HpFlat => 0 <= v <= FLAT_DELTA_LIMIT,
        StatType::DefFlat => 0 <= v <= FLAT_DELTA_LIMIT,
        StatType::NoOp => v == 0,
        _ => 0 <= v <= MULT_DELTA_LIMIT,
    }
}

/// The stat record after adding `v` to the single field the kind denotes
/// (`v` may be negative: that is a removal). Opaque: proofs go through
/// [`lemma_delta_effect`].
#[verifier::opaque]
pub open spec fn spec_apply_delta(s: Stats, kind: StatType, v: int) -> Stats {
    match kind {
        StatType::AtkFlat => Stats { atk_flat: (s.atk_flat + v) as i64, ..s },
        StatType::AtkMult => Stats { atk_mult: (s.atk_mult + v) as i64, ..s },
        StatType::HpFlat => Stats { hp_flat: (s.hp_flat + v) as i64, ..s },
        StatType::HpMult => Stats { hp_mult: (s.hp_mult + v) as i64, ..s },
        StatType::DefFlat => Stats { def_flat: (s.def_flat + v) as i64, ..s },
        StatType::DefMult => Stats { def_mult: (s.def_mult + v) as i64, ..s },
        StatType::GlacioDmg => Stats { glacio_dmg: (s.glacio_dmg + v) as i64, ..s },
        StatType::FusionDmg => Stats { fusion_dmg: (s.fusion_dmg + v) as i64, ..s },
        StatType::ElectroDmg => Stats { electro_dmg: (s.electro_dmg + v) as i64, ..s },
        StatType::AeroDmg => Stats { aero_dmg: (s.aero_dmg + v) as i64, ..s },
        StatType::SpectroDmg => Stats { spectro_dmg: (s.spectro_dmg + v) as i64, ..s },
        StatType::HavocDmg => Stats { havoc_dmg: (s.havoc_dmg + v) as i64, ..s },
        StatType::EnergyRegen => Stats { energy_regen: (s.energy_regen + v) as i64, ..s },
        StatType::CritRate => Stats { crit_rate: (s.crit_rate + v) as i64, ..s },
        StatType::CritDmg => Stats { crit_dmg: (s.crit_dmg + v) as i64, ..s },
        StatType::Healing => Stats { healing_bonus: (s.healing_bonus + v) as i64, ..s },
        StatType::SkillDmg => Stats { skill_dmg: (s.skill_dmg + v) as i64, ..s },
        StatType::BasicDmg => Stats { basic_dmg: (s.basic_dmg + v) as i64, ..s },
        StatType::HeavyDmg => Stats { heavy_dmg: (s.heavy_dmg + v) as i64, ..s },
        StatType::LiberationDmg => Stats { liberation_dmg: (s.liberation_dmg + v) as i64, ..s },
        StatType::NoOp => s,
    }
}

/// `v` where the delta kind `k` denotes the same slot as `t`, else zero:
/// what one delta contributes to one stat field. Opaque: proofs go
/// through [`lemma_delta_effect`] and [`lemma_echo_total_bounds`].
#[verifier::opaque]
pub open spec fn spec_contribution(k: StatType, v: int, t: StatType) -> int {
    if k == t {
        v
    } else {
        0
    }
}

/// What all seven deltas of an echo together contribute to the stat field
/// that the kind `t` denotes.
pub open spec fn spec_echo_total(e: Echo, t: StatType) -> int {
    spec_contribution(e.main_stat_type, e.main_stat_value as int, t) + spec_contribution(
        e.secondary_stat_type,
        e.secondary_stat_value as int,
        t,
    ) + spec_contribution(e.sub_stats[0].0, e.sub_stats[0].1 as int, t) + spec_contribution(
        e.sub_stats[1].0,
        e.sub_stats[1].1 as int,
        t,
    ) + spec_contribution(e.sub_stats[2].0, e.sub_stats[2].1 as int, t) + spec_contribution(
        e.sub_stats[3].0,
        e.sub_stats[3].1 as int,
        t,
    ) + spec_contribution(e.sub_stats[4].0, e.sub_stats[4].1 as int, t)
}

/// A bounded delta on a bounded record moves exactly one field by `v` —
/// with no truncation, so the field equations are plain integer sums —
/// and keeps every field within a widened bound.
pub proof fn lemma_delta_effect(t: Stats, k: StatType, v: int, b: int)
    requires
        spec_stats_within(t, b),
        -20_000_000_000 <= v <= 20_000_000_000,
        0 <= b <= 9_200_000_000_000_000_000int,
    ensures
        spec_stats_within(spec_apply_delta(t, k, v), b + 20_000_000_000),
        spec_apply_delta(t, k, v).base_atk == t.base_atk,
        spec_apply_delta(t, k, v).base_hp == t.base_hp,
        spec_apply_delta(t, k, v).base_def == t.base_def,
        spec_apply_delta(t, k, v).atk_flat == t.atk_flat + spec_contribution(
            k,
            v,
            StatType::AtkFlat,
        ),
        spec_apply_delta(t, k, v).atk_mult == t.atk_mult + spec_contribution(
            k,
            v,
            StatType::AtkMult,
        ),
        spec_apply_delta(t, k, v).hp_flat == t.hp_flat + spec_contribution(k, v, StatType::HpFlat),
        spec_apply_delta(t, k, v).hp_mult == t.hp_mult + spec_contribution(k, v, StatType::HpMult),
        spec_apply_delta(t, k, v).def_flat == t.def_flat + spec_contribution(
            k,
            v,
            StatType::DefFlat,
        ),
        spec_apply_delta(t, k, v).def_mult == t.def_mult + spec_contribution(
            k,
            v,
            StatType::DefMult,
        ),
        spec_apply_delta(t, k, v).glacio_dmg == t.glacio_dmg + spec_contribution(
            k,
            v,
            StatType::GlacioDmg,
        ),
        spec_apply_delta(t, k, v).fusion_dmg == t.fusion_dmg + spec_contribution(
            k,
            v,
            StatType::FusionDmg,
        ),
        spec_apply_delta(t, k, v).electro_dmg == t.electro_dmg + spec_contribution(
            k,
            v,
            StatType::ElectroDmg,
        ),
        spec_apply_delta(t, k, v).aero_dmg == t.aero_dmg + spec_contribution(
            k,
            v,
            StatType::AeroDmg,
        ),
        spec_apply_delta(t, k, v).spectro_dmg == t.spectro_dmg + spec_contribution(
            k,
            v,
            StatType::SpectroDmg,
        ),
        spec_apply_delta(t, k, v).havoc_dmg == t.havoc_dmg + spec_contribution(
            k,
            v,
            StatType::HavocDmg,
        ),
        spec_apply_delta(t, k, v).energy_regen == t.energy_regen + spec_contribution(
            k,
            v,
            StatType::EnergyRegen,
        ),
        spec_apply_delta(t, k, v).crit_rate == t.crit_rate + spec_contribution(
            k,
            v,
            StatType::CritRate,
        ),
        spec_apply_delta(t, k, v).crit_dmg == t.crit_dmg + spec_contribution(
            k,
            v,
            StatType::CritDmg,
        ),
        spec_apply_delta(t, k, v).healing_bonus == t.healing_bonus + spec_contribution(
            k,
            v,
            StatType::Healing,
        ),
        spec_apply_delta(t, k, v).skill_dmg == t.skill_dmg + spec_contribution(
            k,
            v,
            StatType::SkillDmg,
        ),
        spec_apply_delta(t, k, v).basic_dmg == t.basic_dmg + spec_contribution(
            k,
            v,
            StatType::BasicDmg,
        ),
        spec_apply_delta(t, k, v).heavy_dmg == t.heavy_dmg + spec_contribution(
            k,
            v,
            StatType::HeavyDmg,
        ),
        spec_apply_delta(t, k, v).liberation_dmg == t.liberation_dmg + spec_contribution(
            k,
            v,
            StatType::LiberationDmg,
        ),
{
    reveal(spec_apply_delta);
    reveal(spec_contribution);
}

/// A delta's contribution is linear in its amount: negating the amount
/// negates the contribution to every field.
proof fn lemma_contribution_neg(k: StatType, v: int)
    ensures
        forall|t: StatType| #[trigger] spec_contribution(k, -v, t) == -spec_contribution(k, v, t),
{
    reveal(spec_contribution);
}

/// Each delta's amount lies in `[0, FLAT_DELTA_LIMIT]` when it is
/// acceptable for its kind.
proof fn lemma_delta_ok_range(k: StatType, v: i64)
    requires
        spec_delta_ok(k, v),
    ensures
        0 <= v <= FLAT_DELTA_LIMIT,
{
}

impl StatType {
    /// The one dispatch from kind tag to stat field. Both directions go
    /// through it: `sign` is `1` to add the delta and `-1` to subtract it.
    fn apply_signed(&self, stats: &mut Stats, value: i64, sign: i64)
        requires
            sign == 1 || sign == -1,
            0 <= value <= FLAT_DELTA_LIMIT,
            spec_stats_within(*old(stats), 9_220_000_000_000_000_000int),
        ensures
            sign == 1 ==> *final(stats) == spec_apply_delta(*old(stats), *self, value as int),
            sign == -1 ==> *final(stats) == spec_apply_delta(*old(stats), *self, -(value as int)),
    {
        proof {
            reveal(spec_apply_delta);
        }
        let delta: i64 = if sign == 1 {
            value
        } else {
            -value
        };
        match self {
            StatType::AtkFlat => stats.atk_flat = stats.atk_flat + delta,
            StatType::AtkMult => stats.atk_mult = stats.atk_mult + delta,
            StatType::HpFlat => stats.hp_flat = stats.hp_flat + delta,
            StatType::HpMult => stats.hp_mult = stats.hp_mult + delta,
            StatType::DefFlat => stats.def_flat = stats.def_flat + delta,
            StatType::DefMult => stats.def_mult = stats.def_mult + delta,
            StatType::GlacioDmg => stats.glacio_dmg = stats.glacio_dmg + delta,
            StatType::FusionDmg => stats.fusion_dmg = stats.fusion_dmg + delta,
            StatType::ElectroDmg => stats.electro_dmg = stats.electro_dmg + delta,
            StatType::AeroDmg => stats.aero_dmg = stats.aero_dmg + delta,
            StatType::SpectroDmg => stats.spectro_dmg = stats.spectro_dmg + delta,
            StatType::HavocDmg => stats.havoc_dmg = stats.havoc_dmg + delta,
            StatType::EnergyRegen => stats.energy_regen = stats.energy_regen + delta,
            StatType::CritRate => stats.crit_rate = stats.crit_rate + delta,
            StatType::CritDmg => stats.crit_dmg = stats.crit_dmg + delta,
            StatType::Healing => stats.healing_bonus = stats.healing_bonus + delta,
            StatType::SkillDmg => stats.skill_dmg = stats.skill_dmg + delta,
            StatType::BasicDmg => stats.basic_dmg = stats.basic_dmg + delta,
            StatType::HeavyDmg => stats.heavy_dmg = stats.heavy_dmg + delta,
            StatType::LiberationDmg => stats.liberation_dmg = stats.liberation_dmg + delta,
            StatType::NoOp => (),
        }
    }

    /// Add `value` to the stat field this kind denotes.
    pub fn add_to_stats(&self, stats: &mut Stats, value: i64)
        requires
            0 <= value <= FLAT_DELTA_LIMIT,
            spec_stats_within(*old(stats), 9_220_000_000_000_000_000int),
        ensures
            *final(stats) == spec_apply_delta(*old(stats), *self, value as int),
    {
        self.apply_signed(stats, value, 1)
    }

    /// Subtract `value` from the stat field this kind denotes.
    pub fn remove_from_stats(&self, stats: &mut Stats, value: i64)
        requires
            0 <= value <= FLAT_DELTA_LIMIT,
            spec_stats_within(*old(stats), 9_220_000_000_000_000_000int),
        ensures
            *final(stats) == spec_apply_delta(*old(stats), *self, -(value as int)),
    {
        self.apply_signed(stats, value, -1)
    }
}

/// One equippable modifier: a positive cost, a main delta, a secondary
/// delta, and exactly five substat deltas (unused slots hold the no-op
/// sentinel with amount zero).
#[derive(Clone, Copy)]
pub struct Echo {
    pub cost: isize,
    pub main_stat_type: StatType,
    pub main_stat_value: i64,
    pub secondary_stat_type: StatType,
    pub secondary_stat_value: i64,
    pub sub_stats: [(StatType, i64); 5],
}

/// A well-formed echo: positive bounded cost, every delta within its
/// kind's amount range.
pub open spec fn spec_echo_wf(e: Echo) -> bool {
    &&& 1 <= e.cost <= COST_LIMIT
    &&& spec_delta_ok(e.main_stat_type, e.main_stat_value)
    &&& spec_delta_ok(e.secondary_stat_type, e.secondary_stat_value)
    &&& spec_delta_ok(e.sub_stats[0].0, e.sub_stats[0].1)
    &&& spec_delta_ok(e.sub_stats[1].0, e.sub_stats[1].1)
    &&& spec_delta_ok(e.sub_stats[2].0, e.sub_stats[2].1)
    &&& spec_delta_ok(e.sub_stats[3].0, e.sub_stats[3].1)
    &&& spec_delta_ok(e.sub_stats[4].0, e.sub_stats[4].1)
}

/// The stat record after applying all seven deltas of the echo, in the
/// fixed order: main, secondary, then the five substats.
pub open spec fn spec_apply_echo(s: Stats, e: Echo) -> Stats {
    let s1 = spec_apply_delta(s, e.main_stat_type, e.main_stat_value as int);
    let s2 = spec_apply_delta(s1, e.secondary_stat_type, e.secondary_stat_value as int);
    let s3 = spec_apply_delta(s2, e.sub_stats[0].0, e.sub_stats[0].1 as int);
    let s4 = spec_apply_delta(s3, e.sub_stats[1].0, e.sub_stats[1].1 as int);
    let s5 = spec_apply_delta(s4, e.sub_stats[2].0, e.sub_stats[2].1 as int);
    let s6 = spec_apply_delta(s5, e.sub_stats[3].0, e.sub_stats[3].1 as int);
    spec_apply_delta(s6, e.sub_stats[4].0, e.sub_stats[4].1 as int)
}

/// The stat record after subtracting all seven deltas of the echo, in the
/// same fixed order as [`spec_apply_echo`].
pub open spec fn spec_remove_echo(s: Stats, e: Echo) -> Stats {
    let s1 = spec_apply_delta(s, e.main_stat_type, -(e.main_stat_value as int));
    let s2 = spec_apply_delta(s1, e.secondary_stat_type, -(e.secondary_stat_value as int));
    let s3 = spec_apply_delta(s2, e.sub_stats[0].0, -(e.sub_stats[0].1 as int));
    let s4 = spec_apply_delta(s3, e.sub_stats[1].0, -(e.sub_stats[1].1 as int));
    let s5 = spec_apply_delta(s4, e.sub_stats[2].0, -(e.sub_stats[2].1 as int));
    let s6 = spec_apply_delta(s5, e.sub_stats[3].0, -(e.sub_stats[3].1 as int));
    spec_apply_delta(s6, e.sub_stats[4].0, -(e.sub_stats[4].1 as int))
}

impl Echo {
    /// Apply the echo's deltas to the accumulator, in the fixed order:
    /// main, secondary, then each substat.
    pub fn add_to_stats(&self, stats: &mut Stats)
        requires
            spec_echo_wf(*self),
            spec_stats_within(*old(stats), 9_100_000_000_000_000_000int),
        ensures
            *final(stats) == spec_apply_echo(*old(stats), *self),
    {
        let ghost b: int = 9_100_000_000_000_000_000int;
        let ghost g0 = *stats;
        self.main_stat_type.add_to_stats(stats, self.main_stat_value);
        proof {
            lemma_delta_effect(g0, self.main_stat_type, self.main_stat_value as int, b);
        }
        let ghost g1 = *stats;
        self.secondary_stat_type.add_to_stats(stats, self.secondary_stat_value);
        proof {
            lemma_delta_effect(
                g1,
                self.secondary_stat_type,
                self.secondary_stat_value as int,
                b + 20_000_000_000,
            );
        }
        let ghost g2 = *stats;
        let (k0, v0) = self.sub_stats[0];
        k0.add_to_stats(stats, v0);
        proof {
            lemma_delta_effect(g2, k0, v0 as int, b + 40_000_000_000);
        }
        let ghost g3 = *stats;
        let (k1, v1) = self.sub_stats[1];
        k1.add_to_stats(stats, v1);
        proof {
            lemma_delta_effect(g3, k1, v1 as int, b + 60_000_000_000);
        }
        let ghost g4 = *stats;
        let (k2, v2) = self.sub_stats[2];
        k2.add_to_stats(stats, v2);
        proof {
            lemma_delta_effect(g4, k2, v2 as int, b + 80_000_000_000);
        }
        let ghost g5 = *stats;
        let (k3, v3) = self.sub_stats[3];
        k3.add_to_stats(stats, v3);
        proof {
            lemma_delta_effect(g5, k3, v3 as int, b + 100_000_000_000);
        }
        let (k4, v4) = self.sub_stats[4];
        k4.add_to_stats(stats, v4);
    }

    /// Subtract the echo's deltas from the accumulator, in the same order
    /// as [`Echo::add_to_stats`].
    pub fn remove_from_stats(&self, stats: &mut Stats)
        requires
            spec_echo_wf(*self),
            spec_stats_within(*old(stats), 9_100_000_000_000_000_000int),
        ensures
            *final(stats) == spec_remove_echo(*old(stats), *self),
    {
        let ghost b: int = 9_100_000_000_000_000_000int;
        let ghost g0 = *stats;
        self.main_stat_type.remove_from_stats(stats, self.main_stat_value);
        proof {
            lemma_delta_effect(g0, self.main_stat_type, -(self.main_stat_value as int), b);
        }
        let ghost g1 = *stats;
        self.secondary_stat_type.remove_from_stats(stats, self.secondary_stat_value);
        proof {
            lemma_delta_effect(
                g1,
                self.secondary_stat_type,
                -(self.secondary_stat_value as int),
                b + 20_000_000_000,
            );
        }
        let ghost g2 = *stats;
        let (k0, v0) = self.sub_stats[0];
        k0.remove_from_stats(stats, v0);
        proof {
            lemma_delta_effect(g2, k0, -(v0 as int), b + 40_000_000_000);
        }
        let ghost g3 = *stats;
        let (k1, v1) = self.sub_stats[1];
        k1.remove_from_stats(stats, v1);
        proof {
            lemma_delta_effect(g3, k1, -(v1 as int), b + 60_000_000_000);
        }
        let ghost g4 = *stats;
        let (k2, v2) = self.sub_stats[2];
        k2.remove_from_stats(stats, v2);
        proof {
            lemma_delta_effect(g4, k2, -(v2 as int), b + 80_000_000_000);
        }
        let ghost g5 = *stats;
        let (k3, v3) = self.sub_stats[3];
        k3.remove_from_stats(stats, v3);
        proof {
            lemma_delta_effect(g5, k3, -(v3 as int), b + 100_000_000_000);
        }
        let (k4, v4) = self.sub_stats[4];
        k4.remove_from_stats(stats, v4);
    }
}

/// Field-by-field characterization of applying a whole echo: the three
/// base attributes are untouched, and every other field moves up by
/// exactly the echo's total contribution to it.
#[verifier::rlimit(100)]
pub proof fn lemma_apply_echo_fields(s: Stats, e: Echo, b0: int)
    requires
        spec_echo_wf(e),
        spec_stats_within(s, b0),
        0 <= b0 <= 9_100_000_000_000_000_000int,
    ensures
        spec_stats_within(spec_apply_echo(s, e), b0 + 140_000_000_000),
        spec_apply_echo(s, e).base_atk == s.base_atk,
        spec_apply_echo(s, e).base_hp == s.base_hp,
        spec_apply_echo(s, e).base_def == s.base_def,
        spec_apply_echo(s, e).atk_flat == s.atk_flat + spec_echo_total(e, StatType::AtkFlat),
        spec_apply_echo(s, e).atk_mult == s.atk_mult + spec_echo_total(e, StatType::AtkMult),
        spec_apply_echo(s, e).hp_flat == s.hp_flat + spec_echo_total(e, StatType::HpFlat),
        spec_apply_echo(s, e).hp_mult == s.hp_mult + spec_echo_total(e, StatType::HpMult),
        spec_apply_echo(s, e).def_flat == s.def_flat + spec_echo_total(e, StatType::DefFlat),
        spec_apply_echo(s, e).def_mult == s.def_mult + spec_echo_total(e, StatType::DefMult),
        spec_apply_echo(s, e).glacio_dmg == s.glacio_dmg + spec_echo_total(e, StatType::GlacioDmg),
        spec_apply_echo(s, e).fusion_dmg == s.fusion_dmg + spec_echo_total(e, StatType::FusionDmg),
        spec_apply_echo(s, e).electro_dmg == s.electro_dmg + spec_echo_total(
            e,
            StatType::ElectroDmg,
        ),
        spec_apply_echo(s, e).aero_dmg == s.aero_dmg + spec_echo_total(e, StatType::AeroDmg),
        spec_apply_echo(s, e).spectro_dmg == s.spectro_dmg + spec_echo_total(
            e,
            StatType::SpectroDmg,
        ),
        spec_apply_echo(s, e).havoc_dmg == s.havoc_dmg + spec_echo_total(e, StatType::HavocDmg),
        spec_apply_echo(s, e).energy_regen == s.energy_regen + spec_echo_total(
            e,
            StatType::EnergyRegen,
        ),
        spec_apply_echo(s, e).crit_rate == s.crit_rate + spec_echo_total(e, StatType::CritRate),
        spec_apply_echo(s, e).crit_dmg == s.crit_dmg + spec_echo_total(e, StatType::CritDmg),
        spec_apply_echo(s, e).healing_bonus == s.healing_bonus + spec_echo_total(
            e,
            StatType::Healing,
        ),
        spec_apply_echo(s, e).skill_dmg == s.skill_dmg + spec_echo_total(e, StatType::SkillDmg),
        spec_apply_echo(s, e).basic_dmg == s.basic_dmg + spec_echo_total(e, StatType::BasicDmg),
        spec_apply_echo(s, e).heavy_dmg == s.heavy_dmg + spec_echo_total(e, StatType::HeavyDmg),
        spec_apply_echo(s, e).liberation_dmg == s.liberation_dmg + spec_echo_total(
            e,
            StatType::LiberationDmg,
        ),
{
    lemma_delta_ok_range(e.main_stat_type, e.main_stat_value);
    lemma_delta_ok_range(e.secondary_stat_type, e.secondary_stat_value);
    lemma_delta_ok_range(e.sub_stats[0].0, e.sub_stats[0].1);
    lemma_delta_ok_range(e.sub_stats[1].0, e.sub_stats[1].1);
    lemma_delta_ok_range(e.sub_stats[2].0, e.sub_stats[2].1);
    lemma_delta_ok_range(e.sub_stats[3].0, e.sub_stats[3].1);
    lemma_delta_ok_range(e.sub_stats[4].0, e.sub_stats[4].1);
    let s1 = spec_apply_delta(s, e.main_stat_type, e.main_stat_value as int);
    lemma_delta_effect(s, e.main_stat_type, e.main_stat_value as int, b0);
    let s2 = spec_apply_delta(s1, e.secondary_stat_type, e.secondary_stat_value as int);
    lemma_delta_effect(s1, e.secondary_stat_type, e.secondary_stat_value as int, b0 + 20_000_000_000);
    let s3 = spec_apply_delta(s2, e.sub_stats[0].0, e.sub_stats[0].1 as int);
    lemma_delta_effect(s2, e.sub_stats[0].0, e.sub_stats[0].1 as int, b0 + 40_000_000_000);
    let s4 = spec_apply_delta(s3, e.sub_stats[1].0, e.sub_stats[1].1 as int);
    lemma_delta_effect(s3, e.sub_stats[1].0, e.sub_stats[1].1 as int, b0 + 60_000_000_000);
    let s5 = spec_apply_delta(s4, e.sub_stats[2].0, e.sub_stats[2].1 as int);
    lemma_delta_effect(s4, e.sub_stats[2].0, e.sub_stats[2].1 as int, b0 + 80_000_000_000);
    let s6 = spec_apply_delta(s5, e.sub_stats[3].0, e.sub_stats[3].1 as int);
    lemma_delta_effect(s5, e.sub_stats[3].0, e.sub_stats[3].1 as int, b0 + 100_000_000_000);
    lemma_delta_effect(s6, e.sub_stats[4].0, e.sub_stats[4].1 as int, b0 + 120_000_000_000);
}

/// Field-by-field characterization of removing a whole echo: every field
/// moves down by exactly the echo's total contribution to it.
#[verifier::rlimit(100)]
pub proof fn lemma_remove_echo_fields(s: Stats, e: Echo, b0: int)
    requires
        spec_echo_wf(e),
        spec_stats_within(s, b0),
        0 <= b0 <= 9_100_000_000_000_000_000int,
    ensures
        spec_stats_within(spec_remove_echo(s, e), b0 + 140_000_000_000),
        spec_remove_echo(s, e).base_atk == s.base_atk,
        spec_remove_echo(s, e).base_hp == s.base_hp,
        spec_remove_echo(s, e).base_def == s.base_def,
        spec_remove_echo(s, e).atk_flat == s.atk_flat - spec_echo_total(e, StatType::AtkFlat),
        spec_remove_echo(s, e).atk_mult == s.atk_mult - spec_echo_total(e, StatType::AtkMult),
        spec_remove_echo(s, e).hp_flat == s.hp_flat - spec_echo_total(e, StatType::HpFlat),
        spec_remove_echo(s, e).hp_mult == s.hp_mult - spec_echo_total(e, StatType::HpMult),
        spec_remove_echo(s, e).def_flat == s.def_flat - spec_echo_total(e, StatType::DefFlat),
        spec_remove_echo(s, e).def_mult == s.def_mult - spec_echo_total(e, StatType::DefMult),
        spec_remove_echo(s, e).glacio_dmg == s.glacio_dmg - spec_echo_total(e, StatType::GlacioDmg),
        spec_remove_echo(s, e).fusion_dmg == s.fusion_dmg - spec_echo_total(e, StatType::FusionDmg),
        spec_remove_echo(s, e).electro_dmg == s.electro_dmg - spec_echo_total(
            e,
            StatType::ElectroDmg,
        ),
        spec_remove_echo(s, e).aero_dmg == s.aero_dmg - spec_echo_total(e, StatType::AeroDmg),
        spec_remove_echo(s, e).spectro_dmg == s.spectro_dmg - spec_echo_total(
            e,
            StatType::SpectroDmg,
        ),
        spec_remove_echo(s, e).havoc_dmg == s.havoc_dmg - spec_echo_total(e, StatType::HavocDmg),
        spec_remove_echo(s, e).energy_regen == s.energy_regen - spec_echo_total(
            e,
            StatType::EnergyRegen,
        ),
        spec_remove_echo(s, e).crit_rate == s.crit_rate - spec_echo_total(e, StatType::CritRate),
        spec_remove_echo(s, e).crit_dmg == s.crit_dmg - spec_echo_total(e, StatType::CritDmg),
        spec_remove_echo(s, e).healing_bonus == s.healing_bonus - spec_echo_total(
            e,
            StatType::Healing,
        ),
        spec_remove_echo(s, e).skill_dmg == s.skill_dmg - spec_echo_total(e, StatType::SkillDmg),
        spec_remove_echo(s, e).basic_dmg == s.basic_dmg - spec_echo_total(e, StatType::BasicDmg),
        spec_remove_echo(s, e).heavy_dmg == s.heavy_dmg - spec_echo_total(e, StatType::HeavyDmg),
        spec_remove_echo(s, e).liberation_dmg == s.liberation_dmg - spec_echo_total(
            e,
            StatType::LiberationDmg,
        ),
{
    lemma_delta_ok_range(e.main_stat_type, e.main_stat_value);
    lemma_delta_ok_range(e.secondary_stat_type, e.secondary_stat_value);
    lemma_delta_ok_range(e.sub_stats[0].0, e.sub_stats[0].1);
    lemma_delta_ok_range(e.sub_stats[1].0, e.sub_stats[1].1);
    lemma_delta_ok_range(e.sub_stats[2].0, e.sub_stats[2].1);
    lemma_delta_ok_range(e.sub_stats[3].0, e.sub_stats[3].1);
    lemma_delta_ok_range(e.sub_stats[4].0, e.sub_stats[4].1);
    lemma_contribution_neg(e.main_stat_type, e.main_stat_value as int);
    lemma_contribution_neg(e.secondary_stat_type, e.secondary_stat_value as int);
    lemma_contribution_neg(e.sub_stats[0].0, e.sub_stats[0].1 as int);
    lemma_contribution_neg(e.sub_stats[1].0, e.sub_stats[1].1 as int);
    lemma_contribution_neg(e.sub_stats[2].0, e.sub_stats[2].1 as int);
    lemma_contribution_neg(e.sub_stats[3].0, e.sub_stats[3].1 as int);
    lemma_contribution_neg(e.sub_stats[4].0, e.sub_stats[4].1 as int);
    let s1 = spec_apply_delta(s, e.main_stat_type, -(e.main_stat_value as int));
    lemma_delta_effect(s, e.main_stat_type, -(e.main_stat_value as int), b0);
    let s2 = spec_apply_delta(s1, e.secondary_stat_type, -(e.secondary_stat_value as int));
    lemma_delta_effect(s1, e.secondary_stat_type, -(e.secondary_stat_value as int), b0 + 20_000_000_000);
    let s3 = spec_apply_delta(s2, e.sub_stats[0].0, -(e.sub_stats[0].1 as int));
    lemma_delta_effect(s2, e.sub_stats[0].0, -(e.sub_stats[0].1 as int), b0 + 40_000_000_000);
    let s4 = spec_apply_delta(s3, e.sub_stats[1].0, -(e.sub_stats[1].1 as int));
    lemma_delta_effect(s3, e.sub_stats[1].0, -(e.sub_stats[1].1 as int), b0 + 60_000_000_000);
    let s5 = spec_apply_delta(s4, e.sub_stats[2].0, -(e.sub_stats[2].1 as int));
    lemma_delta_effect(s4, e.sub_stats[2].0, -(e.sub_stats[2].1 as int), b0 + 80_000_000_000);
    let s6 = spec_apply_delta(s5, e.sub_stats[3].0, -(e.sub_stats[3].1 as int));
    lemma_delta_effect(s5, e.sub_stats[3].0, -(e.sub_stats[3].1 as int), b0 + 100_000_000_000);
    lemma_delta_effect(s6, e.sub_stats[4].0, -(e.sub_stats[4].1 as int), b0 + 120_000_000_000);
}

/// Applying an echo and then removing it restores every stat field to its
/// prior value exactly.
pub proof fn lemma_apply_remove_roundtrip(s: Stats, e: Echo)
    requires
        spec_echo_wf(e),
        spec_stats_within(s, 9_000_000_000_000_000_000int),
    ensures
        spec_remove_echo(spec_apply_echo(s, e), e) == s,
{
    lemma_apply_echo_fields(s, e, 9_000_000_000_000_000_000int);
    lemma_remove_echo_fields(spec_apply_echo(s, e), e, 9_000_000_000_000_000_000int + 140_000_000_000);
}

} // verus!
