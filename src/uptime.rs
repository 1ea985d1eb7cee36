//! Availability tiers and the classifier from a success ratio to a tier.
//!
//! A ratio is given as a numerator and a denominator, and the tier
//! thresholds are compared exactly, in hundred-thousandths.

use vstd::prelude::*;

use crate::color::{Color, color_name};

verus! {

/// An availability tier, from "unknown" through the best tier down to the
/// worst.
#[derive(Clone, Copy, Debug, PartialEq, Eq, Structural)]
pub enum Uptime {
    UpUnknown,
    UpMax,
    Up99_99,
    Up99_95,
    Up99_9,
    Up99_8,
    Up99_5,
    Up99,
    Up98,
    Up97,
    Up95,
    Up90,
    UpMin,
}

/// The denominator of the tier thresholds.
pub const THRESHOLD_SCALE: u64 = 100000;

/// The label shown on a badge for a tier.
pub open spec fn tier_label(u: Uptime) -> Seq<char> {
    match u {
        Uptime::UpUnknown => "??%"@,
        Uptime::UpMax => ">99.99%"@,
        Uptime::Up99_99 => "99.99%"@,
        Uptime::Up99_95 => "99.95%"@,
        Uptime::Up99_9 => "99.9%"@,
        Uptime::Up99_8 => "99.8%"@,
        Uptime::Up99_5 => "99.5%"@,
        Uptime::Up99 => "99%"@,
        Uptime::Up98 => "98%"@,
        Uptime::Up97 => "97%"@,
        Uptime::Up95 => "95%"@,
        Uptime::Up90 => "90%"@,
        Uptime::UpMin => "<90%"@,
    }
}

/// The badge color of a tier.
pub open spec fn tier_color(u: Uptime) -> Color {
    match u {
        Uptime::UpUnknown => Color::LightGrey,
        Uptime::UpMax => Color::BrightGreen,
        Uptime::Up99_99 => Color::BrightGreen,
        Uptime::Up99_95 => Color::Green,
        Uptime::Up99_9 => Color::Green,
        Uptime::Up99_8 => Color::YellowGreen,
        Uptime::Up99_5 => Color::YellowGreen,
        Uptime::Up99 => Color::Yellow,
        Uptime::Up98 => Color::Yellow,
        Uptime::Up97 => Color::Orange,
        Uptime::Up95 => Color::Orange,
        Uptime::Up90 => Color::Red,
        Uptime::UpMin => Color::Red,
    }
}

/// The position of a tier in the order of quality: "unknown" lowest, then
/// the worst tier up to the best.
pub open spec fn tier_rank(u: Uptime) -> int {
    match u {
        Uptime::UpUnknown => 0,
        Uptime::UpMin => 1,
        Uptime::Up90 => 2,
        Uptime::Up95 => 3,
        Uptime::Up97 => 4,
        Uptime::Up98 => 5,
        Uptime::Up99 => 6,
        Uptime::Up99_5 => 7,
        Uptime::Up99_8 => 8,
        Uptime::Up99_9 => 9,
        Uptime::Up99_95 => 10,
        Uptime::Up99_99 => 11,
        Uptime::UpMax => 12,
    }
}

/// The least ratio, in hundred-thousandths, that a tier covers.
pub open spec fn tier_floor(u: Uptime) -> int {
    match u {
        Uptime::UpMax => 99995,
        Uptime::Up99_99 => 99990,
        Uptime::Up99_95 => 99950,
        Uptime::Up99_9 => 99900,
        Uptime::Up99_8 => 99800,
        Uptime::Up99_5 => 99500,
        Uptime::Up99 => 99000,
        Uptime::Up98 => 98000,
        Uptime::Up97 => 97000,
        Uptime::Up95 => 95000,
        Uptime::Up90 => 90000,
        Uptime::UpMin => 0,
        Uptime::UpUnknown => 0,
    }
}

/// The least ratio, in hundred-thousandths, above a tier: the floor of the
/// next better tier (the best tier has no such bound; it is given as one
/// past the whole range).
pub open spec fn tier_ceiling(u: Uptime) -> int {
    match u {
        Uptime::UpMax => 100001,
        Uptime::Up99_99 => 99995,
        Uptime::Up99_95 => 99990,
        Uptime::Up99_9 => 99950,
        Uptime::Up99_8 => 99900,
        Uptime::Up99_5 => 99800,
        Uptime::Up99 => 99500,
        Uptime::Up98 => 99000,
        Uptime::Up97 => 98000,
        Uptime::Up95 => 97000,
        Uptime::Up90 => 95000,
        Uptime::UpMin => 90000,
        Uptime::UpUnknown => 0,
    }
}

/// Whether the ratio `num / den` reaches `t` hundred-thousandths.
pub open spec fn reaches(num: int, den: int, t: int) -> bool {
    num * 100000 >= t * den
}

/// The tier of the ratio `num / den`: the first threshold, from the highest
/// down, that the ratio reaches.
pub open spec fn tier_of(num: int, den: int) -> Uptime {
    if reaches(num, den, 99995) {
        Uptime::UpMax
    } else if reaches(num, den, 99990) {
        Uptime::Up99_99
    } else if reaches(num, den, 99950) {
        Uptime::Up99_95
    } else if reaches(num, den, 99900) {
        Uptime::Up99_9
    } else if reaches(num, den, 99800) {
        Uptime::Up99_8
    } else if reaches(num, den, 99500) {
        Uptime::Up99_5
    } else if reaches(num, den, 99000) {
        Uptime::Up99
    } else if reaches(num, den, 98000) {
        Uptime::Up98
    } else if reaches(num, den, 97000) {
        Uptime::Up97
    } else if reaches(num, den, 95000) {
        Uptime::Up95
    } else if reaches(num, den, 90000) {
        Uptime::Up90
    } else {
        Uptime::UpMin
    }
}

impl Uptime {
    /// The badge label and color name of this tier.
    pub fn as_str(&self) -> (r: (&'static str, &'static str))
        ensures
            r.0@ == tier_label(*self),
            r.1@ == color_name(tier_color(*self)),
    {
        match self {
            Uptime::UpUnknown => ("??%", Color::LightGrey.as_str()),
            Uptime::UpMax => (">99.99%", Color::BrightGreen.as_str()),
            Uptime::Up99_99 => ("99.99%", Color::BrightGreen.as_str()),
            Uptime::Up99_95 => ("99.95%", Color::Green.as_str()),
            Uptime::Up99_9 => ("99.9%", Color::Green.as_str()),
            Uptime::Up99_8 => ("99.8%", Color::YellowGreen.as_str()),
            Uptime::Up99_5 => ("99.5%", Color::YellowGreen.as_str()),
            Uptime::Up99 => ("99%", Color::Yellow.as_str()),
            Uptime::Up98 => ("98%", Color::Yellow.as_str()),
            Uptime::Up97 => ("97%", Color::Orange.as_str()),
            Uptime::Up95 => ("95%", Color::Orange.as_str()),
            Uptime::Up90 => ("90%", Color::Red.as_str()),
            Uptime::UpMin => ("<90%", Color::Red.as_str()),
        }
    }

    /// The tier of the ratio `num / den`, a ratio in [0, 1].
    pub fn from_ratio(num: u32, den: u32) -> (r: Uptime)
        requires
            0 < den,
            num <= den,
        ensures
            r == tier_of(num as int, den as int),
    {
        let n: u64 = num as u64 * THRESHOLD_SCALE;
        let d: u64 = den as u64;
        if n >= 99995 * d {
            Uptime::UpMax
        } else if n >= 99990 * d {
            Uptime::Up99_99
        } else if n >= 99950 * d {
            Uptime::Up99_95
        } else if n >= 99900 * d {
            Uptime::Up99_9
        } else if n >= 99800 * d {
            Uptime::Up99_8
        } else if n >= 99500 * d {
            Uptime::Up99_5
        } else if n >= 99000 * d {
            Uptime::Up99
        } else if n >= 98000 * d {
            Uptime::Up98
        } else if n >= 97000 * d {
            Uptime::Up97
        } else if n >= 95000 * d {
            Uptime::Up95
        } else if n >= 90000 * d {
            Uptime::Up90
        } else {
            Uptime::UpMin
        }
    }
}

/// If `num1 / den1 <= num2 / den2` and the first ratio reaches a threshold,
/// the second reaches it too.
proof fn lemma_reaches_mono(num1: int, den1: int, num2: int, den2: int, t: int)
    requires
        0 < den1,
        0 < den2,
        0 <= t,
        num1 * den2 <= num2 * den1,
        reaches(num1, den1, t),
    ensures
        reaches(num2, den2, t),
{
    assert(num1 * den2 * 100000 >= t * den1 * den2) by (nonlinear_arith)
        requires
            num1 * 100000 >= t * den1,
            0 < den2,
    ;
    assert(num2 * den1 * 100000 >= num1 * den2 * 100000) by (nonlinear_arith)
        requires
            num1 * den2 <= num2 * den1,
    ;
    assert(num2 * 100000 >= t * den2) by (nonlinear_arith)
        requires
            num2 * den1 * 100000 >= t * den1 * den2,
            0 < den1,
    ;
}

/// The classifier is monotonic: a ratio at least as high never gets a worse
/// tier.
pub proof fn lemma_classify_monotonic(num1: int, den1: int, num2: int, den2: int)
    requires
        0 < den1,
        0 < den2,
        0 <= num1 <= den1,
        0 <= num2 <= den2,
        num1 * den2 <= num2 * den1,
    ensures
        tier_rank(tier_of(num1, den1)) <= tier_rank(tier_of(num2, den2)),
{
    let t = tier_of(num1, den1);
    lemma_reaches_mono(num1, den1, num2, den2, tier_floor(t));
}

/// The classifier is total on [0, 1] and leaves no gap: every ratio gets a
/// known tier, and lies at or above that tier's floor and below the floor of
/// the next better tier.
pub proof fn lemma_classify_total(num: int, den: int)
    requires
        0 < den,
        0 <= num <= den,
    ensures
        tier_of(num, den) != Uptime::UpUnknown,
        reaches(num, den, tier_floor(tier_of(num, den))),
        !reaches(num, den, tier_ceiling(tier_of(num, den))),
{
}

} // verus!
