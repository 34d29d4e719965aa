//! Color rules: every drawn element's color is a pure function of the
//! actor's health fraction and camera distance.

use vstd::prelude::*;

verus! {

/// A color with 8-bit channels. The drawing collaborator scales the channels
/// to whatever range its surface expects.
#[derive(Clone, Copy, Debug, PartialEq, Eq, Structural)]
pub struct Rgba {
    pub r: u8,
    pub g: u8,
    pub b: u8,
    pub a: u8,
}

/// How a drawn element's color is derived from the actor's health fraction
/// (in percent) and camera distance (in meters).
#[derive(Clone, Copy, Debug, PartialEq, Eq, Structural)]
pub enum ColorRule {
    /// The same color at every health and distance.
    Solid(Rgba),
    /// A red-to-green gradient driven by the health fraction.
    HealthGradient,
    /// The base color, fading out linearly until `max_distance` meters.
    DistanceFade { base: Rgba, max_distance: i64 },
}

pub open spec fn rule_ok(rule: ColorRule) -> bool {
    match rule {
        ColorRule::DistanceFade { base, max_distance } => 0 < max_distance <= 1_000_000,
        _ => true,
    }
}

pub open spec fn gradient_color(health_pct: int) -> Rgba {
    Rgba {
        r: (255 * (100 - health_pct) / 100) as u8,
        g: (255 * health_pct / 100) as u8,
        b: 0,
        a: 255,
    }
}

pub open spec fn faded_alpha(base_alpha: int, dist: int, max_distance: int) -> int {
    if dist < max_distance {
        base_alpha * (max_distance - dist) / max_distance
    } else {
        0
    }
}

/// The color an element takes for a given health fraction and distance.
pub open spec fn eval_color(rule: ColorRule, health_pct: int, dist: int) -> Rgba {
    match rule {
        ColorRule::Solid(c) => c,
        ColorRule::HealthGradient => gradient_color(health_pct),
        ColorRule::DistanceFade { base, max_distance } => Rgba {
            r: base.r,
            g: base.g,
            b: base.b,
            a: faded_alpha(base.a as int, dist, max_distance as int) as u8,
        },
    }
}

pub fn calculate_color(rule: &ColorRule, health_pct: u8, dist: i64) -> (c: Rgba)
    requires
        rule_ok(*rule),
        health_pct <= 100,
        0 <= dist,
    ensures
        c == eval_color(*rule, health_pct as int, dist as int),
{
    match rule {
        ColorRule::Solid(c) => *c,
        ColorRule::HealthGradient => {
            let pct = health_pct as u32;
            let r = (255 * (100 - pct) / 100) as u8;
            let g = (255 * pct / 100) as u8;
            Rgba { r, g, b: 0, a: 255 }
        },
        ColorRule::DistanceFade { base, max_distance } => {
            let m: i64 = *max_distance;
            let a: u8 = if dist < m {
                proof {
                    assert(0 <= (base.a as i64) * (m - dist) <= 255_000_000) by (nonlinear_arith)
                        requires
                            base.a <= 255,
                            0 <= m - dist <= 1_000_000,
                    ;
                }
                let scaled = (base.a as i64) * (m - dist);
                assert(0 <= scaled / m <= 255) by (nonlinear_arith)
                    requires
                        0 < m,
                        scaled == (base.a as i64) * (m - dist),
                        0 <= m - dist <= m,
                        base.a <= 255,
                ;
                (scaled / m) as u8
            } else {
                0
            };
            Rgba { r: base.r, g: base.g, b: base.b, a }
        },
    }
}

} // verus!
