use wuwa_calculator::calculator::{resistance_adjustment, BaseStats, Stats, Target};
use wuwa_calculator::echo::{Echo, StatType};
use wuwa_calculator::{Element, SkillType};

/// Comparisons against numbers taken from the game use this tolerance.
const TOLERANCE: f64 = 1.0;

/// A real value as a fixed-point `i64` at the library's scale.
fn fp(x: f64) -> i64 {
    (x * 1_000_000.0).round() as i64
}

/// A fixed-point damage result back as a real value.
fn to_f64(d: i128) -> f64 {
    (d as f64) / 1_000_000.0
}

fn jiyan_set1_stats() -> Stats {
    let jiyan_base_stats_70 = BaseStats { hp: fp(7954.0), atk: fp(343.0), def: fp(899.0) };
    let mut stats = Stats::new_from_base(jiyan_base_stats_70);

    // Helios Cleaver lvl 70/70
    stats.base_atk += fp(312.0);
    stats.atk_mult += fp(0.251);

    // Talent stats
    stats.crit_rate += fp(0.012) + fp(0.012);
    stats.crit_dmg += fp(0.12);

    let echoes = [
        Echo {
            cost: 4,
            main_stat_type: StatType::CritRate,
            main_stat_value: fp(0.22),
            secondary_stat_type: StatType::AtkFlat,
            secondary_stat_value: fp(150.0),
            sub_stats: [
                (StatType::CritRate, fp(0.087)),
                (StatType::SkillDmg, fp(0.094)),
                (StatType::AtkFlat, fp(30.0)),
                (StatType::EnergyRegen, fp(0.10)),
                (StatType::HpMult, fp(0.079)),
            ],
        },
        Echo {
            cost: 3,
            main_stat_type: StatType::AeroDmg,
            main_stat_value: fp(0.252),
            secondary_stat_type: StatType::AtkFlat,
            secondary_stat_value: fp(84.0),
            sub_stats: [
                (StatType::DefMult, fp(0.128)),
                (StatType::CritRate, fp(0.063)),
                (StatType::EnergyRegen, fp(0.076)),
                (StatType::HeavyDmg, fp(0.094)),
                (StatType::NoOp, 0),
            ],
        },
        Echo {
            cost: 3,
            main_stat_type: StatType::AeroDmg,
            main_stat_value: fp(0.223),
            secondary_stat_type: StatType::AtkFlat,
            secondary_stat_value: fp(74.0),
            sub_stats: [
                (StatType::AtkFlat, fp(40.0)),
                (StatType::AtkMult, fp(0.079)),
                (StatType::CritRate, fp(0.075)),
                (StatType::NoOp, 0),
                (StatType::NoOp, 0),
            ],
        },
        Echo {
            cost: 1,
            main_stat_type: StatType::AtkMult,
            main_stat_value: fp(0.18),
            secondary_stat_type: StatType::HpFlat,
            secondary_stat_value: fp(2280.0),
            sub_stats: [
                (StatType::CritDmg, fp(0.138)),
                (StatType::SkillDmg, fp(0.094)),
                (StatType::EnergyRegen, fp(0.10)),
                (StatType::HpFlat, fp(470.0)),
                (StatType::AtkMult, fp(0.079)),
            ],
        },
        Echo {
            cost: 1,
            main_stat_type: StatType::AtkMult,
            main_stat_value: fp(0.18),
            secondary_stat_type: StatType::HpFlat,
            secondary_stat_value: fp(2280.0),
            sub_stats: [
                (StatType::EnergyRegen, fp(0.108)),
                (StatType::CritRate, fp(0.069)),
                (StatType::CritDmg, fp(0.186)),
                (StatType::HpMult, fp(0.094)),
                (StatType::DefFlat, fp(50.0)),
            ],
        },
    ];

    echoes[0].add_to_stats(&mut stats);
    echoes[1].add_to_stats(&mut stats);
    echoes[2].add_to_stats(&mut stats);
    echoes[3].add_to_stats(&mut stats);
    echoes[4].add_to_stats(&mut stats);

    // Echo set bonuses
    stats.aero_dmg += fp(0.10);

    stats
}

#[test]
fn test_calculate_base_damage_set1() {
    let stats = jiyan_set1_stats();

    // First hit of his basic attack
    let target = Target {
        element: Element::Aero,
        skill_type: SkillType::Basic,
        skill_multiplier: fp(0.5354),
        skill_scaling_bonus: fp(1.0),
    };

    // Game data
    let expected_wildlife_dmgs = (1296.0, 2519.0);
    let expected_dmgs_per_level = [
        (64, (596.0, 1158.0)),
        (65, (594.0, 1154.0)),
        (66, (592.0, 1151.0)),
        (69, (587.0, 1140.0)),
        (70, (585.0, 1137.0)),
    ];

    assert!((to_f64(stats.skill_base_damage_noncrit(target)) - expected_wildlife_dmgs.0).abs() < TOLERANCE);
    assert!((to_f64(stats.skill_base_damage_crit(target)) - expected_wildlife_dmgs.1).abs() < TOLERANCE);

    for (level, expected_dmgs) in expected_dmgs_per_level.iter() {
        assert!(
            (to_f64(stats.skill_adjusted_damage_noncrit(target, 70, *level)) - expected_dmgs.0).abs()
                < TOLERANCE
        );
        assert!(
            (to_f64(stats.skill_adjusted_damage_crit(target, 70, *level)) - expected_dmgs.1).abs()
                < TOLERANCE
        );
    }
}

#[test]
fn test_calculate_base_damage_set2() {
    let jiyan_base_stats_70 = BaseStats { hp: fp(7954.0), atk: fp(343.0), def: fp(899.0) };
    let mut stats = Stats::new_from_base(jiyan_base_stats_70);

    // Verdant Summit 60/60
    stats.base_atk += fp(374.0);
    stats.crit_dmg += fp(0.359);
    // weapon passive
    stats.glacio_dmg += fp(0.12);
    stats.fusion_dmg += fp(0.12);
    stats.electro_dmg += fp(0.12);
    stats.aero_dmg += fp(0.12);
    stats.spectro_dmg += fp(0.12);
    stats.havoc_dmg += fp(0.12);

    // Talent stats
    stats.crit_rate += fp(0.012) + fp(0.012);
    stats.atk_mult += fp(0.018) + fp(0.018);
    stats.crit_dmg += fp(0.12);

    let echoes = [
        Echo {
            cost: 4,
            main_stat_type: StatType::CritRate,
            main_stat_value: fp(0.22),
            secondary_stat_type: StatType::AtkFlat,
            secondary_stat_value: fp(150.0),
            sub_stats: [
                (StatType::HpFlat, fp(470.0)),
                (StatType::EnergyRegen, fp(0.10)),
                (StatType::AtkFlat, fp(50.0)),
                (StatType::CritDmg, fp(0.174)),
                (StatType::LiberationDmg, fp(0.079)),
            ],
        },
        Echo {
            cost: 3,
            main_stat_type: StatType::EnergyRegen,
            main_stat_value: fp(0.268),
            secondary_stat_type: StatType::AtkFlat,
            secondary_stat_value: fp(84.0),
            sub_stats: [
                (StatType::CritDmg, fp(0.15)),
                (StatType::AtkFlat, fp(50.0)),
                (StatType::HpFlat, fp(320.0)),
                (StatType::AtkMult, fp(0.086)),
                (StatType::NoOp, 0),
            ],
        },
        Echo {
            cost: 3,
            main_stat_type: StatType::AeroDmg,
            main_stat_value: fp(0.30),
            secondary_stat_type: StatType::AtkFlat,
            secondary_stat_value: fp(100.0),
            sub_stats: [
                (StatType::CritRate, fp(0.075)),
                (StatType::AtkFlat, fp(50.0)),
                (StatType::CritDmg, fp(0.15)),
                (StatType::HeavyDmg, fp(0.094)),
                (StatType::HpFlat, fp(430.0)),
            ],
        },
        Echo {
            cost: 1,
            main_stat_type: StatType::AtkMult,
            main_stat_value: fp(0.151),
            secondary_stat_type: StatType::HpFlat,
            secondary_stat_value: fp(1915.0),
            sub_stats: [
                (StatType::AtkFlat, fp(50.0)),
                (StatType::AtkMult, fp(0.086)),
                (StatType::CritDmg, fp(0.138)),
                (StatType::EnergyRegen, fp(0.076)),
                (StatType::NoOp, 0),
            ],
        },
        Echo {
            cost: 1,
            main_stat_type: StatType::AtkMult,
            main_stat_value: fp(0.122),
            secondary_stat_type: StatType::HpFlat,
            secondary_stat_value: fp(1550.0),
            sub_stats: [
                (StatType::BasicDmg, fp(0.101)),
                (StatType::CritDmg, fp(0.174)),
                (StatType::DefFlat, fp(50.0)),
                (StatType::NoOp, 0),
                (StatType::NoOp, 0),
            ],
        },
    ];

    echoes[0].add_to_stats(&mut stats);
    echoes[1].add_to_stats(&mut stats);
    echoes[2].add_to_stats(&mut stats);
    echoes[3].add_to_stats(&mut stats);
    echoes[4].add_to_stats(&mut stats);

    // Echo set bonuses
    stats.atk_mult += fp(0.10);
    stats.aero_dmg += fp(0.10);

    // First hit of his basic attack
    let target = Target {
        element: Element::Aero,
        skill_type: SkillType::Basic,
        skill_multiplier: fp(0.5007),
        skill_scaling_bonus: fp(1.0),
    };

    // Game data
    let expected_wildfile_dmgs = (1353.0, 3743.0);
    let expected_dmgs_per_level = [
        (62, (626.0, 1730.0)),
        (63, (624.0, 1725.0)),
        (64, (622.0, 1720.0)),
        (65, (620.0, 1715.0)),
        (67, (617.0, 1705.0)),
        (70, (611.0, 1689.0)),
    ];

    assert!((to_f64(stats.skill_base_damage_noncrit(target)) - expected_wildfile_dmgs.0).abs() < TOLERANCE);
    assert!((to_f64(stats.skill_base_damage_crit(target)) - expected_wildfile_dmgs.1).abs() < TOLERANCE);

    for (level, expected_dmgs) in expected_dmgs_per_level.iter() {
        assert!(
            (to_f64(stats.skill_adjusted_damage_noncrit(target, 70, *level)) - expected_dmgs.0).abs()
                < TOLERANCE
        );
        assert!(
            (to_f64(stats.skill_adjusted_damage_crit(target, 70, *level)) - expected_dmgs.1).abs()
                < TOLERANCE
        );
    }
}

#[test]
fn derived_attributes_exact() {
    let base = BaseStats { hp: fp(7954.0), atk: fp(343.0), def: fp(899.0) };
    let mut stats = Stats::new_from_base(base);
    assert_eq!(stats.hp(), fp(7954.0) as i128);
    assert_eq!(stats.atk(), fp(343.0) as i128);
    assert_eq!(stats.def(), fp(899.0) as i128);

    stats.atk_mult += fp(0.5);
    stats.atk_flat += fp(100.0);
    // 343 * 1.5 + 100 = 614.5
    assert_eq!(stats.atk(), fp(614.5) as i128);
}

#[test]
fn new_from_base_defaults() {
    let stats = Stats::new_from_base(BaseStats { hp: fp(1.0), atk: fp(2.0), def: fp(3.0) });
    assert_eq!(stats.crit_rate, fp(0.05));
    assert_eq!(stats.crit_dmg, fp(1.5));
    assert_eq!(stats.hp_mult, fp(1.0));
    assert_eq!(stats.atk_mult, fp(1.0));
    assert_eq!(stats.def_mult, fp(1.0));
    assert_eq!(stats.energy_regen, fp(1.0));
    assert_eq!(stats.healing_bonus, fp(1.0));
    assert_eq!(stats.aero_dmg, 0);
    assert_eq!(stats.basic_dmg, 0);
    assert_eq!(stats.hp_flat, 0);
}

#[test]
fn hit_multiplier_average_is_weighted_mean() {
    let mut stats = Stats::new_from_base(BaseStats { hp: fp(7954.0), atk: fp(343.0), def: fp(899.0) });
    stats.crit_rate += fp(0.307);
    stats.crit_dmg += fp(0.42);

    let noncrit: i128 = stats.hit_multiplier_noncrit();
    let crit: i128 = stats.hit_multiplier_crit();
    let average: i128 = stats.hit_multiplier_average();
    let scale: i128 = 1_000_000;
    let cr: i128 = stats.crit_rate as i128;

    // average == noncrit * (1 - cr) + crit * cr, exactly, in fixed point.
    assert_eq!(scale * average, noncrit * (scale - cr) + crit * cr);
}

#[test]
fn resistance_curve_continuous_at_boundaries() {
    // Around resistance total zero.
    assert_eq!(resistance_adjustment(-1), 1_000_000);
    assert_eq!(resistance_adjustment(0), 1_000_000);
    assert_eq!(resistance_adjustment(1), 999_999);
    // Around the deep-resistance break point (0.8).
    assert_eq!(resistance_adjustment(799_999), 200_001);
    assert_eq!(resistance_adjustment(800_000), 200_000);
    assert_eq!(resistance_adjustment(800_001), 199_999);
}

#[test]
fn resistance_curve_branch_values() {
    // 1 - r/2 for negative totals: r = -0.5 gives 1.25.
    assert_eq!(resistance_adjustment(fp(-0.5)), fp(1.25));
    // 1 - r in the middle: r = 0.1 gives 0.9.
    assert_eq!(resistance_adjustment(fp(0.1)), fp(0.9));
    // 1 / (1 + 5r) beyond the break: r = 1.0 gives 1/6.
    assert_eq!(resistance_adjustment(fp(1.0)), 166_666);
}

#[test]
fn enemy_resistance_exact_value() {
    let stats = Stats::new_from_base(BaseStats { hp: fp(1.0), atk: fp(1.0), def: fp(1.0) });
    // base resistance 0.1, def multiplier 1360/2712, both at level 70.
    assert_eq!(stats.enemy_resistance(70, 70), 451_326);
}

#[test]
fn scenario_single_gear_piece_totals() {
    let mut stats = Stats::new_from_base(BaseStats { hp: fp(7954.0), atk: fp(343.0), def: fp(899.0) });
    let piece = Echo {
        cost: 4,
        main_stat_type: StatType::CritRate,
        main_stat_value: fp(0.22),
        secondary_stat_type: StatType::AtkFlat,
        secondary_stat_value: fp(150.0),
        sub_stats: [
            (StatType::CritRate, fp(0.087)),
            (StatType::SkillDmg, fp(0.094)),
            (StatType::AtkFlat, fp(30.0)),
            (StatType::EnergyRegen, fp(0.10)),
            (StatType::HpMult, fp(0.079)),
        ],
    };
    piece.add_to_stats(&mut stats);
    // crit rate 0.05 + 0.22 + 0.087 = 0.357, atk flat 150 + 30 = 180.
    assert_eq!(stats.crit_rate, fp(0.357));
    assert_eq!(stats.atk_flat, fp(180.0));
    assert_eq!(stats.skill_dmg, fp(0.094));
    assert_eq!(stats.energy_regen, fp(1.10));
    assert_eq!(stats.hp_mult, fp(1.079));
}

#[test]
fn base_damage_exact_values() {
    // Unmodified stats: atk 343, crit rate 0.05, crit damage 1.5, no bonuses.
    let stats = Stats::new_from_base(BaseStats { hp: fp(7954.0), atk: fp(343.0), def: fp(899.0) });
    let target = Target {
        element: Element::Aero,
        skill_type: SkillType::Basic,
        skill_multiplier: fp(0.5354),
        skill_scaling_bonus: fp(1.0),
    };
    // 0.5354 * 343 = 183.6422 exactly, and 1.5 / 1.02375 times that for
    // the crit / average variants.
    assert_eq!(stats.skill_base_damage_noncrit(target), 183_642_200);
    assert_eq!(stats.skill_base_damage_crit(target), 275_463_300);
    assert_eq!(stats.skill_base_damage_average(target), 188_233_255);
    assert_eq!(stats.skill_adjusted_damage_noncrit(target, 70, 70), 82_882_499);
}
