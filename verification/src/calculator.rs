//! The stat accumulator and the damage formula.
//!
//! A [`Stats`] value aggregates a character's attributes as fixed-point
//! numbers (see [`crate::SCALE`]). The damage queries are exact integer
//! computations; each one's contract equates its result to a spec-level
//! function of the stat record, so the whole formula is pinned down.

use vstd::prelude::*;

use crate::{lemma_mul_le, Element, SkillType, SCALE};
use vstd::arithmetic::div_mod::{
    lemma_div_by_multiple, lemma_div_is_ordered_by_denominator, lemma_div_nonincreasing,
};

verus! {

/// Largest flat-style stat (base attributes and flat offsets) that the
/// damage queries accept: 10^7 in real units.
pub const FLAT_LIMIT: i64 = 10_000_000_000_000;

/// Largest multiplier-style stat (multipliers, crit parameters, bonus
/// slots) that the damage queries accept: 2000 in real units.
pub const MULT_LIMIT: i64 = 2_000_000_000;

/// Largest skill multiplier / skill-scaling bonus accepted: 100 in real
/// units.
pub const TARGET_LIMIT: i64 = 100_000_000;

/// Largest character or enemy level accepted.
pub const LEVEL_LIMIT: isize = 10_000;

/// The enemy's base resistance (fixed-point): 0.10.
pub const BASE_RESISTANCE: i64 = 100_000;

/// Resistance penetration; an extension point, fixed at zero today.
pub const RESISTANCE_PENETRATION: i64 = 0;

/// The resistance total at which the middle branch of the resistance
/// curve hands over to the deep-resistance branch: 0.80.
pub const RESISTANCE_BREAK: i64 = 800_000;

/// Defense ignore; an extension point, fixed at zero today.
pub const DEFENSE_IGNORE: i64 = 0;

/// Elemental-resistance multiplier; an extension point, fixed at one today.
pub const ELEMENTAL_RESISTANCE: i64 = SCALE;

/// Flat damage-reduction multiplier; an extension point, fixed at one today.
pub const DAMAGE_REDUCTION: i64 = SCALE;

/// The stat ranges on which the damage queries are defined: every field
/// that enters the formula is nonnegative and small enough that the whole
/// computation stays exact in 128-bit arithmetic, and the crit damage
/// multiplier is at least one.
pub open spec fn spec_stats_fit(s: Stats) -> bool {
    &&& 0 <= s.base_atk <= FLAT_LIMIT
    &&& 0 <= s.atk_flat <= FLAT_LIMIT
    &&& 0 <= s.atk_mult <= MULT_LIMIT
    &&& 0 <= s.crit_rate <= MULT_LIMIT
    &&& SCALE <= s.crit_dmg <= MULT_LIMIT
    &&& 0 <= s.glacio_dmg <= MULT_LIMIT
    &&& 0 <= s.fusion_dmg <= MULT_LIMIT
    &&& 0 <= s.electro_dmg <= MULT_LIMIT
    &&& 0 <= s.aero_dmg <= MULT_LIMIT
    &&& 0 <= s.spectro_dmg <= MULT_LIMIT
    &&& 0 <= s.havoc_dmg <= MULT_LIMIT
    &&& 0 <= s.skill_dmg <= MULT_LIMIT
    &&& 0 <= s.basic_dmg <= MULT_LIMIT
    &&& 0 <= s.heavy_dmg <= MULT_LIMIT
    &&& 0 <= s.liberation_dmg <= MULT_LIMIT
}

/// The attack-context ranges on which the damage queries are defined.
pub open spec fn spec_target_fit(t: Target) -> bool {
    &&& 0 <= t.skill_multiplier <= TARGET_LIMIT
    &&& 0 <= t.skill_scaling_bonus <= TARGET_LIMIT
}

/// Everything known about one attack instance: which element and skill type
/// it carries, and its skill multiplier and skill-scaling bonus
/// (both fixed-point).
#[derive(Clone, Copy)]
pub struct Target {
    pub element: Element,
    pub skill_type: SkillType,
    pub skill_multiplier: i64,
    pub skill_scaling_bonus: i64,
}

/// A character's unmodified base attributes (fixed-point).
#[derive(Clone, Copy)]
pub struct BaseStats {
    pub hp: i64,
    pub atk: i64,
    pub def: i64,
}

/// The aggregated stats of a character: base values, flat offsets,
/// multipliers, crit parameters, and one bonus slot per element tag and
/// per skill-type tag. All values are fixed-point `i64`.
#[derive(Clone, Copy, PartialEq, Eq, Structural, Debug)]
pub struct Stats {
    pub base_atk: i64,
    pub base_hp: i64,
    pub base_def: i64,

    pub hp_flat: i64,
    pub atk_flat: i64,
    pub def_flat: i64,

    pub hp_mult: i64,
    pub atk_mult: i64,
    pub def_mult: i64,

    pub crit_rate: i64,
    pub crit_dmg: i64,

    pub energy_regen: i64,

    pub glacio_dmg: i64,
    pub fusion_dmg: i64,
    pub electro_dmg: i64,
    pub aero_dmg: i64,
    pub spectro_dmg: i64,
    pub havoc_dmg: i64,

    pub skill_dmg: i64,
    pub basic_dmg: i64,
    pub heavy_dmg: i64,
    pub liberation_dmg: i64,

    pub healing_bonus: i64,
}

/// The elemental-damage bonus slot that an element tag denotes.
pub open spec fn spec_element_bonus(s: Stats, e: Element) -> int {
    match e {
        Element::Glacio => s.glacio_dmg as int,
        Element::Fusion => s.fusion_dmg as int,
        Element::Electro => s.electro_dmg as int,
        Element::Aero => s.aero_dmg as int,
        Element::Spectro => s.spectro_dmg as int,
        Element::Havoc => s.havoc_dmg as int,
    }
}

/// The skill-type-damage bonus slot that a skill-type tag denotes.
pub open spec fn spec_skill_bonus(s: Stats, t: SkillType) -> int {
    match t {
        SkillType::Skill => s.skill_dmg as int,
        SkillType::Basic => s.basic_dmg as int,
        SkillType::Heavy => s.heavy_dmg as int,
        SkillType::Liberation => s.liberation_dmg as int,
    }
}

/// A derived attribute is `base * multiplier + flat offset`; the product of
/// two fixed-point values is rescaled by a truncating division.
pub open spec fn spec_derived(base: int, mult: int, flat: int) -> int {
    (base * mult) / (SCALE as int) + flat
}

pub open spec fn spec_hp(s: Stats) -> int {
    spec_derived(s.base_hp as int, s.hp_mult as int, s.hp_flat as int)
}

pub open spec fn spec_atk(s: Stats) -> int {
    spec_derived(s.base_atk as int, s.atk_mult as int, s.atk_flat as int)
}

pub open spec fn spec_def(s: Stats) -> int {
    spec_derived(s.base_def as int, s.def_mult as int, s.def_flat as int)
}

/// `base * mult / SCALE + flat`, computed without overflow.
fn derived_attribute(base: i64, mult: i64, flat: i64) -> (r: i128)
    requires
        0 <= base,
        0 <= mult,
    ensures
        r == spec_derived(base as int, mult as int, flat as int),
{
    proof {
        lemma_mul_le(base as int, mult as int, i64::MAX as int, i64::MAX as int);
    }
    let p: u128 = (base as u128) * (mult as u128);
    let q: u128 = p / (SCALE as u128);
    (q as i128) + (flat as i128)
}

impl Stats {
    /// A fresh accumulator: base attributes carried over, flat offsets zero,
    /// multipliers one, crit rate 0.05, crit damage multiplier 1.5, energy
    /// regeneration and healing bonus one, every elemental and skill-type
    /// bonus slot zero.
    pub fn new_from_base(base: BaseStats) -> (r: Stats)
        ensures
            r.base_atk == base.atk,
            r.base_hp == base.hp,
            r.base_def == base.def,
            r.hp_flat == 0,
            r.atk_flat == 0,
            r.def_flat == 0,
            r.hp_mult == SCALE,
            r.atk_mult == SCALE,
            r.def_mult == SCALE,
            r.crit_rate == SCALE / 20,
            r.crit_dmg == SCALE + SCALE / 2,
            r.energy_regen == SCALE,
            r.glacio_dmg == 0,
            r.fusion_dmg == 0,
            r.electro_dmg == 0,
            r.aero_dmg == 0,
            r.spectro_dmg == 0,
            r.havoc_dmg == 0,
            r.skill_dmg == 0,
            r.basic_dmg == 0,
            r.heavy_dmg == 0,
            r.liberation_dmg == 0,
            r.healing_bonus == SCALE,
    {
        Stats {
            base_atk: base.atk,
            base_hp: base.hp,
            base_def: base.def,

            hp_flat: 0,
            atk_flat: 0,
            def_flat: 0,

            hp_mult: SCALE,
            atk_mult: SCALE,
            def_mult: SCALE,

            crit_rate: 50_000,
            crit_dmg: 1_500_000,

            energy_regen: SCALE,

            glacio_dmg: 0,
            fusion_dmg: 0,
            electro_dmg: 0,
            aero_dmg: 0,
            spectro_dmg: 0,
            havoc_dmg: 0,

            skill_dmg: 0,
            basic_dmg: 0,
            heavy_dmg: 0,
            liberation_dmg: 0,

            healing_bonus: SCALE,
        }
    }

    /// The character's hit points.
    pub fn hp(&self) -> (r: i128)
        requires
            0 <= self.base_hp,
            0 <= self.hp_mult,
        ensures
            r == spec_hp(*self),
    {
        derived_attribute(self.base_hp, self.hp_mult, self.hp_flat)
    }

    /// The character's attack.
    pub fn atk(&self) -> (r: i128)
        requires
            0 <= self.base_atk,
            0 <= self.atk_mult,
        ensures
            r == spec_atk(*self),
    {
        derived_attribute(self.base_atk, self.atk_mult, self.atk_flat)
    }

    /// The character's defense.
    pub fn def(&self) -> (r: i128)
        requires
            0 <= self.base_def,
            0 <= self.def_mult,
        ensures
            r == spec_def(*self),
    {
        derived_attribute(self.base_def, self.def_mult, self.def_flat)
    }

    /// The damage a non-critical hit scales from: the attack value,
    /// at fixed-point scale `SCALE^3`.
    pub fn hit_multiplier_noncrit(&self) -> (r: i128)
        requires
            spec_stats_fit(*self),
        ensures
            r == spec_hit_noncrit(*self),
    {
        let a: i128 = self.atk();
        proof {
            lemma_atk_fit(*self);
        }
        a * 1_000_000_000_000
    }

    /// The damage a critical hit scales from: attack times the crit damage
    /// multiplier, at fixed-point scale `SCALE^3`.
    pub fn hit_multiplier_crit(&self) -> (r: i128)
        requires
            spec_stats_fit(*self),
        ensures
            r == spec_hit_crit(*self),
    {
        let a: i128 = self.atk();
        proof {
            lemma_atk_fit(*self);
            lemma_mul_le(
                spec_atk(*self),
                self.crit_dmg as int,
                20_010_000_000_000_000int,
                2_000_000_000int,
            );
        }
        (a * (self.crit_dmg as i128)) * 1_000_000
    }

    /// The crit-rate-weighted expected hit scaling, at fixed-point scale
    /// `SCALE^3`. Equals the crit-rate-weighted mean of the non-crit and
    /// crit multipliers; see [`lemma_hit_multiplier_average_is_mean`].
    pub fn hit_multiplier_average(&self) -> (r: i128)
        requires
            spec_stats_fit(*self),
        ensures
            r == spec_hit_average(*self),
    {
        let a: i128 = self.atk();
        let extra: i64 = self.crit_dmg - SCALE;
        proof {
            lemma_atk_fit(*self);
            lemma_mul_le(
                self.crit_rate as int,
                extra as int,
                2_000_000_000int,
                2_000_000_000int,
            );
        }
        let weighted_extra: i128 = (self.crit_rate as i128) * (extra as i128);
        let weight: i128 = 1_000_000_000_000 + weighted_extra;
        proof {
            lemma_mul_le(
                spec_atk(*self),
                weight as int,
                20_010_000_000_000_000int,
                4_001_000_000_000_000_000int,
            );
        }
        a * weight
    }

    /// The elemental-damage bonus slot for an element tag.
    pub fn element_bonus(&self, e: Element) -> (r: i64)
        ensures
            r as int == spec_element_bonus(*self, e),
    {
        match e {
            Element::Glacio => self.glacio_dmg,
            Element::Fusion => self.fusion_dmg,
            Element::Electro => self.electro_dmg,
            Element::Aero => self.aero_dmg,
            Element::Spectro => self.spectro_dmg,
            Element::Havoc => self.havoc_dmg,
        }
    }

    /// The skill-type-damage bonus slot for a skill-type tag.
    pub fn skill_bonus(&self, t: SkillType) -> (r: i64)
        ensures
            r as int == spec_skill_bonus(*self, t),
    {
        match t {
            SkillType::Skill => self.skill_dmg,
            SkillType::Basic => self.basic_dmg,
            SkillType::Heavy => self.heavy_dmg,
            SkillType::Liberation => self.liberation_dmg,
        }
    }

    /// Shared tail of the three base-damage queries: scale the hit
    /// multiplier `hm` by the context's multipliers and the bonus slots.
    fn base_damage_from(&self, target: Target, hm: i128) -> (r: i128)
        requires
            spec_stats_fit(*self),
            spec_target_fit(target),
            0 <= hm <= 100_000_000_000_000_000_000_000_000_000_000_000int,
        ensures
            r == spec_base_damage_from(*self, target, hm as int),
            0 <= r <= 5_000_000_000_000_000_000_000_000_000_000int,
    {
        proof {
            lemma_mul_le(
                target.skill_multiplier as int,
                target.skill_scaling_bonus as int,
                100_000_000int,
                100_000_000int,
            );
        }
        let p1: u128 = (target.skill_multiplier as u128) * (target.skill_scaling_bonus as u128);
        let scaled: u128 = p1 / (SCALE as u128);
        let hit: u128 = ((hm as u128) / (SCALE as u128)) / (SCALE as u128);
        proof {
            lemma_mul_le(
                scaled as int,
                hit as int,
                10_000_000_000int,
                100_000_000_000_000_000_000_000int,
            );
        }
        let core: u128 = (scaled * hit) / (SCALE as u128);
        let eb: i64 = self.element_bonus(target.element);
        let kb: i64 = self.skill_bonus(target.skill_type);
        let bonus: i64 = SCALE + eb + kb;
        proof {
            lemma_mul_le(
                core as int,
                bonus as int,
                1_000_000_000_000_000_000_000_000_000int,
                4_001_000_000int,
            );
        }
        let prod: u128 = core * (bonus as u128);
        (prod / (SCALE as u128)) as i128
    }

    /// Base damage of a non-critical hit, before enemy resistance.
    pub fn skill_base_damage_noncrit(&self, target: Target) -> (r: i128)
        requires
            spec_stats_fit(*self),
            spec_target_fit(target),
        ensures
            r == spec_base_damage_noncrit(*self, target),
            0 <= r <= 5_000_000_000_000_000_000_000_000_000_000int,
    {
        let hm: i128 = self.hit_multiplier_noncrit();
        proof {
            lemma_hit_multiplier_bounds(*self);
        }
        self.base_damage_from(target, hm)
    }

    /// Base damage of a critical hit, before enemy resistance.
    pub fn skill_base_damage_crit(&self, target: Target) -> (r: i128)
        requires
            spec_stats_fit(*self),
            spec_target_fit(target),
        ensures
            r == spec_base_damage_crit(*self, target),
            0 <= r <= 5_000_000_000_000_000_000_000_000_000_000int,
    {
        let hm: i128 = self.hit_multiplier_crit();
        proof {
            lemma_hit_multiplier_bounds(*self);
        }
        self.base_damage_from(target, hm)
    }

    /// Crit-rate-weighted expected base damage, before enemy resistance.
    pub fn skill_base_damage_average(&self, target: Target) -> (r: i128)
        requires
            spec_stats_fit(*self),
            spec_target_fit(target),
        ensures
            r == spec_base_damage_average(*self, target),
            0 <= r <= 5_000_000_000_000_000_000_000_000_000_000int,
    {
        let hm: i128 = self.hit_multiplier_average();
        proof {
            lemma_hit_multiplier_bounds(*self);
        }
        self.base_damage_from(target, hm)
    }

    /// The combined enemy-resistance factor for the two levels, at scale
    /// `SCALE`.
    pub fn enemy_resistance(&self, character_level: isize, enemy_level: isize) -> (r: i128)
        requires
            0 <= character_level <= LEVEL_LIMIT,
            0 <= enemy_level <= LEVEL_LIMIT,
        ensures
            r as int == spec_enemy_resistance(character_level as int, enemy_level as int),
            0 <= r <= SCALE,
    {
        let ra: i64 = resistance_adjustment(BASE_RESISTANCE + RESISTANCE_PENETRATION);
        let ed: u128 = 8 * (enemy_level as u128) + 792;
        proof {
            assert((SCALE - DEFENSE_IGNORE) as int == 1_000_000int);
            assert((ed as int) * ((SCALE - DEFENSE_IGNORE) as int) == (ed as int) * 1_000_000int);
        }
        let eff_def: u128 = (ed * ((SCALE - DEFENSE_IGNORE) as u128)) / (SCALE as u128);
        let lp: u128 = 800 + 8 * (character_level as u128);
        proof {
            assert((lp as int) * (SCALE as int) == (lp as int) * 1_000_000int);
        }
        let dm: u128 = (lp * (SCALE as u128)) / (lp + eff_def);
        proof {
            lemma_div_is_ordered_by_denominator(
                (lp as int) * (SCALE as int),
                lp as int,
                (lp + eff_def) as int,
            );
            lemma_div_by_multiple(1_000_000int, lp as int);
            assert((1_000_000int * (lp as int)) / (lp as int) == 1_000_000int);
        }
        proof {
            assert((ra as int) * ((ELEMENTAL_RESISTANCE) as int) == (ra as int) * 1_000_000int);
        }
        let r1: u128 = ((ra as u128) * (ELEMENTAL_RESISTANCE as u128)) / (SCALE as u128);
        proof {
            lemma_mul_le(r1 as int, dm as int, 1_000_000int, 1_000_000int);
        }
        let r2: u128 = (r1 * dm) / (SCALE as u128);
        proof {
            assert((r2 as int) * ((DAMAGE_REDUCTION) as int) == (r2 as int) * 1_000_000int);
        }
        let r3: u128 = (r2 * (DAMAGE_REDUCTION as u128)) / (SCALE as u128);
        r3 as i128
    }

    /// Resistance-adjusted damage of a non-critical hit.
    pub fn skill_adjusted_damage_noncrit(
        &self,
        target: Target,
        character_level: isize,
        enemy_level: isize,
    ) -> (r: i128)
        requires
            spec_stats_fit(*self),
            spec_target_fit(target),
            0 <= character_level <= LEVEL_LIMIT,
            0 <= enemy_level <= LEVEL_LIMIT,
        ensures
            r == spec_adjusted_damage_noncrit(
                *self,
                target,
                character_level as int,
                enemy_level as int,
            ),
    {
        let bd: i128 = self.skill_base_damage_noncrit(target);
        let res: i128 = self.enemy_resistance(character_level, enemy_level);
        proof {
            lemma_mul_le(
                bd as int,
                res as int,
                5_000_000_000_000_000_000_000_000_000_000int,
                1_000_000int,
            );
        }
        (((bd as u128) * (res as u128)) / (SCALE as u128)) as i128
    }

    /// Resistance-adjusted damage of a critical hit.
    pub fn skill_adjusted_damage_crit(
        &self,
        target: Target,
        character_level: isize,
        enemy_level: isize,
    ) -> (r: i128)
        requires
            spec_stats_fit(*self),
            spec_target_fit(target),
            0 <= character_level <= LEVEL_LIMIT,
            0 <= enemy_level <= LEVEL_LIMIT,
        ensures
            r == spec_adjusted_damage_crit(
                *self,
                target,
                character_level as int,
                enemy_level as int,
            ),
    {
        let bd: i128 = self.skill_base_damage_crit(target);
        let res: i128 = self.enemy_resistance(character_level, enemy_level);
        proof {
            lemma_mul_le(
                bd as int,
                res as int,
                5_000_000_000_000_000_000_000_000_000_000int,
                1_000_000int,
            );
        }
        (((bd as u128) * (res as u128)) / (SCALE as u128)) as i128
    }

    /// Resistance-adjusted crit-rate-weighted expected damage.
    pub fn skill_adjusted_damage_average(
        &self,
        target: Target,
        character_level: isize,
        enemy_level: isize,
    ) -> (r: i128)
        requires
            spec_stats_fit(*self),
            spec_target_fit(target),
            0 <= character_level <= LEVEL_LIMIT,
            0 <= enemy_level <= LEVEL_LIMIT,
        ensures
            r == spec_adjusted_damage_average(
                *self,
                target,
                character_level as int,
                enemy_level as int,
            ),
    {
        let bd: i128 = self.skill_base_damage_average(target);
        let res: i128 = self.enemy_resistance(character_level, enemy_level);
        proof {
            lemma_mul_le(
                bd as int,
                res as int,
                5_000_000_000_000_000_000_000_000_000_000int,
                1_000_000int,
            );
        }
        (((bd as u128) * (res as u128)) / (SCALE as u128)) as i128
    }
}

/// The base damage of a skill for a given hit multiplier `hm` (at scale
/// `SCALE^3`): `skill_multiplier * skill_scaling_bonus * hm
/// * (1 + elemental_bonus + skill_type_bonus)`, rescaled step by step with
/// truncating division; the result is at scale `SCALE`.
pub open spec fn spec_base_damage_from(s: Stats, t: Target, hm: int) -> int {
    let scaled = (t.skill_multiplier * t.skill_scaling_bonus) / (SCALE as int);
    let hit = hm / (SCALE as int) / (SCALE as int);
    let core = (scaled * hit) / (SCALE as int);
    let bonus = SCALE + spec_element_bonus(s, t.element) + spec_skill_bonus(s, t.skill_type);
    (core * bonus) / (SCALE as int)
}

pub open spec fn spec_base_damage_noncrit(s: Stats, t: Target) -> int {
    spec_base_damage_from(s, t, spec_hit_noncrit(s))
}

pub open spec fn spec_base_damage_crit(s: Stats, t: Target) -> int {
    spec_base_damage_from(s, t, spec_hit_crit(s))
}

pub open spec fn spec_base_damage_average(s: Stats, t: Target) -> int {
    spec_base_damage_from(s, t, spec_hit_average(s))
}

/// The piecewise resistance-adjustment curve over the resistance total `r`
/// (fixed-point): `1 - r/2` for `r <= 0`; `1 - r` up to the break point;
/// `1/(1 + 5r)` beyond it (the numerator literal is `SCALE * SCALE`).
pub open spec fn spec_resistance_adjustment(r: int) -> int {
    if r <= 0 {
        SCALE + (-r) / 2
    } else if r <= RESISTANCE_BREAK {
        SCALE - r
    } else {
        1_000_000_000_000int / ((SCALE as int) + 5 * r)
    }
}

/// The combined enemy-resistance factor: the resistance adjustment times
/// the elemental-resistance multiplier times the defense multiplier
/// `level_term / (level_term + enemy_def * (1 - defense_ignore))` times the
/// flat damage reduction, all at scale `SCALE`.
pub open spec fn spec_enemy_resistance(cl: int, el: int) -> int {
    let ra = spec_resistance_adjustment((BASE_RESISTANCE + RESISTANCE_PENETRATION) as int);
    let enemy_def = 8 * el + 792;
    let eff_def = (enemy_def * ((SCALE - DEFENSE_IGNORE) as int)) / (SCALE as int);
    let level_term = 800 + 8 * cl;
    let dm = (level_term * (SCALE as int)) / (level_term + eff_def);
    let r1 = (ra * (ELEMENTAL_RESISTANCE as int)) / (SCALE as int);
    let r2 = (r1 * dm) / (SCALE as int);
    (r2 * (DAMAGE_REDUCTION as int)) / (SCALE as int)
}

pub open spec fn spec_adjusted_damage_noncrit(s: Stats, t: Target, cl: int, el: int) -> int {
    (spec_base_damage_noncrit(s, t) * spec_enemy_resistance(cl, el)) / (SCALE as int)
}

pub open spec fn spec_adjusted_damage_crit(s: Stats, t: Target, cl: int, el: int) -> int {
    (spec_base_damage_crit(s, t) * spec_enemy_resistance(cl, el)) / (SCALE as int)
}

pub open spec fn spec_adjusted_damage_average(s: Stats, t: Target, cl: int, el: int) -> int {
    (spec_base_damage_average(s, t) * spec_enemy_resistance(cl, el)) / (SCALE as int)
}

/// The resistance-adjustment curve, as executable code.
pub fn resistance_adjustment(res_total: i64) -> (r: i64)
    requires
        -1_000_000_000_000 <= res_total <= 1_000_000_000_000,
    ensures
        r as int == spec_resistance_adjustment(res_total as int),
{
    if res_total <= 0 {
        let half: i64 = (((-res_total) as u64) / 2) as i64;
        SCALE + half
    } else if res_total <= RESISTANCE_BREAK {
        SCALE - res_total
    } else {
        let den: i64 = SCALE + 5 * res_total;
        let q: u64 = 1_000_000_000_000u64 / (den as u64);
        proof {
            lemma_div_nonincreasing(1_000_000_000_000int, den as int);
        }
        q as i64
    }
}

/// Non-crit hit scaling: the attack value, widened to scale `SCALE^3`
/// (the literal is `SCALE * SCALE`).
pub open spec fn spec_hit_noncrit(s: Stats) -> int {
    spec_atk(s) * 1_000_000_000_000int
}

/// Crit hit scaling: attack times the crit damage multiplier, at scale
/// `SCALE^3` (the literal is `SCALE`).
pub open spec fn spec_hit_crit(s: Stats) -> int {
    (spec_atk(s) * s.crit_dmg) * 1_000_000int
}

/// Average hit scaling: `atk * (1 + crit_rate * (crit_dmg - 1))`, at scale
/// `SCALE^3`; exact, with no intermediate truncation (the literal is
/// `SCALE * SCALE`).
pub open spec fn spec_hit_average(s: Stats) -> int {
    spec_atk(s) * (1_000_000_000_000int + s.crit_rate * (s.crit_dmg - SCALE))
}

/// A fit stat record's attack value is nonnegative and bounded.
pub proof fn lemma_atk_fit(s: Stats)
    requires
        spec_stats_fit(s),
    ensures
        0 <= spec_atk(s) <= 20_010_000_000_000_000int,
{
    lemma_mul_le(
        s.base_atk as int,
        s.atk_mult as int,
        10_000_000_000_000int,
        2_000_000_000int,
    );
}

/// On fit stats all three hit multipliers are nonnegative and bounded.
pub proof fn lemma_hit_multiplier_bounds(s: Stats)
    requires
        spec_stats_fit(s),
    ensures
        0 <= spec_hit_noncrit(s) <= 100_000_000_000_000_000_000_000_000_000_000_000int,
        0 <= spec_hit_crit(s) <= 100_000_000_000_000_000_000_000_000_000_000_000int,
        0 <= spec_hit_average(s) <= 100_000_000_000_000_000_000_000_000_000_000_000int,
{
    lemma_atk_fit(s);
    lemma_mul_le(spec_atk(s), s.crit_dmg as int, 20_010_000_000_000_000int, 2_000_000_000int);
    lemma_mul_le(s.crit_rate as int, s.crit_dmg - SCALE, 2_000_000_000int, 2_000_000_000int);
    lemma_mul_le(
        spec_atk(s),
        (SCALE as int) * (SCALE as int) + s.crit_rate * (s.crit_dmg - SCALE),
        20_010_000_000_000_000int,
        4_001_000_000_000_000_000int,
    );
}

/// The average hit multiplier is exactly the crit-rate-weighted mean of the
/// non-crit and crit hit multipliers: with `cr` the crit rate (fixed-point),
/// `SCALE * average == noncrit * (SCALE - cr) + crit * cr`, which is the
/// fixed-point statement of
/// `average == noncrit * (1 - cr) + crit * cr`.
pub proof fn lemma_hit_multiplier_average_is_mean(s: Stats)
    requires
        0 <= s.crit_rate <= SCALE,
        SCALE <= s.crit_dmg,
    ensures
        (SCALE as int) * spec_hit_average(s) == spec_hit_noncrit(s) * (SCALE - s.crit_rate)
            + spec_hit_crit(s) * s.crit_rate,
{
    lemma_weighted_mean_identity(spec_atk(s), s.crit_rate as int, s.crit_dmg as int, 1_000_000int);
}

/// The resistance curve is continuous across both of its branch
/// boundaries: at a resistance total of zero the low and middle branches
/// give the same value, at the break point the middle and high branches
/// give the same value, and stepping one fixed-point unit across either
/// boundary moves the result by at most one fixed-point unit.
pub proof fn lemma_resistance_adjustment_continuous()
    ensures
        spec_resistance_adjustment(-1) == SCALE,
        spec_resistance_adjustment(0) == SCALE,
        spec_resistance_adjustment(1) == SCALE - 1,
        spec_resistance_adjustment(RESISTANCE_BREAK as int) == SCALE - RESISTANCE_BREAK,
        1_000_000_000_000int / ((SCALE as int) + 5 * (RESISTANCE_BREAK as int)) == SCALE
            - RESISTANCE_BREAK,
        spec_resistance_adjustment(RESISTANCE_BREAK + 1) == SCALE - RESISTANCE_BREAK - 1,
{
    assert((SCALE as int) + 5 * (RESISTANCE_BREAK as int) == 5_000_000int);
    assert(1_000_000_000_000int / ((SCALE as int) + 5 * (RESISTANCE_BREAK as int))
        == 1_000_000_000_000int / 5_000_000int);
    assert((SCALE as int) + 5 * ((RESISTANCE_BREAK + 1) as int) == 5_000_005int);
    assert(1_000_000_000_000int / ((SCALE as int) + 5 * ((RESISTANCE_BREAK + 1) as int))
        == 1_000_000_000_000int / 5_000_005int);
}

/// The ring identity behind [`lemma_hit_multiplier_average_is_mean`].
#[verifier::rlimit(50)]
proof fn lemma_weighted_mean_identity(a: int, c: int, d: int, k: int)
    by (nonlinear_arith)
    ensures
        k * (a * (k * k + c * (d - k))) == (a * k * k) * (k - c) + (a * d * k) * c,
{
}

} // verus!
