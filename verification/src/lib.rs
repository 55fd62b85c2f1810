//! Expected-damage model and gear optimizer for a character build.
//!
//! All stat values are fixed-point numbers: an `i64` holding the real value
//! times [`SCALE`]. Every formula is exact integer arithmetic, so each
//! damage query is specified by (and proved equal to) a mathematical
//! function of the stat record.

use vstd::prelude::*;

pub mod calculator;
pub mod echo;
pub mod optimizer;

verus! {

/// Fixed-point scale: a stored value `v` denotes the real number `v / SCALE`.
pub const SCALE: i64 = 1_000_000;

/// The closed set of elemental damage tags.
#[derive(Clone, Copy)]
pub enum Element {
    Glacio,
    Fusion,
    Electro,
    Aero,
    Spectro,
    Havoc,
}

/// The closed set of skill-type damage tags.
#[derive(Clone, Copy)]
pub enum SkillType {
    Skill,
    Basic,
    Heavy,
    Liberation,
}

/// Bounded values multiply into bounded products.
pub proof fn lemma_mul_le(a: int, b: int, am: int, bm: int)
    by (nonlinear_arith)
    requires
        0 <= a <= am,
        0 <= b <= bm,
    ensures
        0 <= a * b <= am * bm,
{
}

} // verus!
