use wuwa_calculator::calculator::{BaseStats, Stats};
use wuwa_calculator::echo::{Echo, StatType};

/// A real value as a fixed-point `i64` at the library's scale.
fn fp(x: f64) -> i64 {
    (x * 1_000_000.0).round() as i64
}

fn sample_piece() -> Echo {
    Echo {
        cost: 3,
        main_stat_type: StatType::AeroDmg,
        main_stat_value: fp(0.30),
        secondary_stat_type: StatType::AtkFlat,
        secondary_stat_value: fp(100.0),
        sub_stats: [
            (StatType::CritRate, fp(0.075)),
            (StatType::AtkFlat, fp(50.0)),
            (StatType::CritDmg, fp(0.15)),
            (StatType::HeavyDmg, fp(0.094)),
            (StatType::HpFlat, fp(430.0)),
        ],
    }
}

#[test]
fn apply_then_remove_restores_every_field() {
    let mut stats = Stats::new_from_base(BaseStats { hp: fp(7954.0), atk: fp(343.0), def: fp(899.0) });
    stats.base_atk += fp(312.0);
    stats.atk_mult += fp(0.251);
    stats.crit_rate += fp(0.024);
    stats.aero_dmg += fp(0.10);

    let before = stats;
    let piece = sample_piece();
    piece.add_to_stats(&mut stats);
    assert_ne!(stats, before);
    piece.remove_from_stats(&mut stats);
    assert_eq!(stats, before);
}

#[test]
fn apply_then_remove_restores_from_a_fresh_record() {
    let mut stats = Stats::new_from_base(BaseStats { hp: fp(1.0), atk: fp(1.0), def: fp(1.0) });
    let before = stats;
    let piece = Echo {
        cost: 1,
        main_stat_type: StatType::HpMult,
        main_stat_value: fp(0.122),
        secondary_stat_type: StatType::HpFlat,
        secondary_stat_value: fp(1550.0),
        sub_stats: [
            (StatType::NoOp, 0),
            (StatType::NoOp, 0),
            (StatType::NoOp, 0),
            (StatType::NoOp, 0),
            (StatType::NoOp, 0),
        ],
    };
    piece.add_to_stats(&mut stats);
    piece.remove_from_stats(&mut stats);
    assert_eq!(stats, before);
}

#[test]
fn apply_routes_each_kind_to_its_field() {
    let mut stats = Stats::new_from_base(BaseStats { hp: fp(1.0), atk: fp(1.0), def: fp(1.0) });
    StatType::AeroDmg.add_to_stats(&mut stats, fp(0.30));
    assert_eq!(stats.aero_dmg, fp(0.30));
    StatType::BasicDmg.add_to_stats(&mut stats, fp(0.101));
    assert_eq!(stats.basic_dmg, fp(0.101));
    StatType::Healing.add_to_stats(&mut stats, fp(0.2));
    assert_eq!(stats.healing_bonus, fp(1.2));
    StatType::DefMult.add_to_stats(&mut stats, fp(0.128));
    assert_eq!(stats.def_mult, fp(1.128));
    StatType::NoOp.add_to_stats(&mut stats, 0);
    StatType::AeroDmg.remove_from_stats(&mut stats, fp(0.30));
    assert_eq!(stats.aero_dmg, 0);
}
