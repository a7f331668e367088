//! Jump-count estimation between two systems.
//!
//! All lengths are whole milli-light-years. Distances are never rounded before a jump
//! count is taken: a count is the least number of hops that covers the exact Euclidean
//! distance, which is decided on squared lengths alone.
use vstd::prelude::*;

use crate::types::{EdjcError, JumpResult, SystemCoordinates};

verus! {

/// Largest magnitude a coordinate may have: a trillion light-years, in milli-light-years.
pub const MAX_COORDINATE: i64 = 1_000_000_000_000_000;

/// Largest squared distance between two points whose coordinates are within
/// `MAX_COORDINATE`: three times the square of twice that bound.
pub const MAX_DISTANCE_SQUARED: u128 = 12_000_000_000_000_000_000_000_000_000_000;

/// No route takes more jumps than this (twice the root bound, plus one).
pub const MAX_ROUTE_JUMPS: u64 = 144_115_188_075_855_873;

/// Every square root taken here is below this bound (2 to the 56th).
const ROOT_BOUND: u128 = 72057594037927936;

/// `s` is the integer square root of `x`, rounded down.
pub open spec fn is_floor_sqrt(s: int, x: int) -> bool {
    0 <= s && s * s <= x && x < (s + 1) * (s + 1)
}

/// The integer square root of `x`, rounded down.
pub open spec fn floor_sqrt(x: int) -> int {
    choose|s: int| is_floor_sqrt(s, x)
}

/// The square root of `x` rounded to the nearest integer (halves round up).
pub open spec fn rounded_sqrt(x: int) -> int {
    (floor_sqrt(4 * x) + 1) / 2
}

/// `n` hops, each `q * range / p` long, reach at least as far as the square root of `dsq`.
pub open spec fn covers(n: int, p: int, q: int, range: int, dsq: int) -> bool {
    (q * range * n) * (q * range * n) >= p * p * dsq
}

/// `n` is the least number of hops of length `q * range / p` that covers the distance whose
/// square is `dsq`: the ceiling of `p * sqrt(dsq) / (q * range)`.
pub open spec fn is_hop_count(n: int, p: int, q: int, range: int, dsq: int) -> bool {
    n >= 0 && covers(n, p, q, range, dsq) && (n == 0 || !covers(n - 1, p, q, range, dsq))
}

/// The ceiling of `p * sqrt(dsq) / (q * range)`.
pub open spec fn hop_count(p: int, q: int, range: int, dsq: int) -> int {
    choose|n: int| is_hop_count(n, p, q, range, dsq)
}

proof fn lemma_floor_sqrt_from(x: int, k: int)
    requires
        0 <= x,
        0 <= k,
        x < (k + 1) * (k + 1),
    ensures
        exists|s: int| is_floor_sqrt(s, x),
    decreases k,
{
    if k == 0 || x >= k * k {
        assert(is_floor_sqrt(k, x));
    } else {
        lemma_floor_sqrt_from(x, k - 1);
    }
}

/// The rounded-down square root exists and is unique.
pub proof fn lemma_floor_sqrt(s: int, x: int)
    requires
        0 <= x,
    ensures
        is_floor_sqrt(floor_sqrt(x), x),
        is_floor_sqrt(s, x) ==> s == floor_sqrt(x),
{
    assert(x < (x + 1) * (x + 1)) by (nonlinear_arith)
        requires
            0 <= x,
    ;
    lemma_floor_sqrt_from(x, x);
    let f = floor_sqrt(x);
    if is_floor_sqrt(s, x) && s != f {
        if s < f {
            assert((s + 1) * (s + 1) <= f * f) by (nonlinear_arith)
                requires
                    0 <= s < f,
            ;
        } else {
            assert((f + 1) * (f + 1) <= s * s) by (nonlinear_arith)
                requires
                    0 <= f < s,
            ;
        }
    }
}

/// `rounded_sqrt(x)` is the integer nearest the square root of `x`: twice it is within one
/// of twice the root, with a half rounding up.
pub proof fn lemma_rounded_sqrt_nearest(x: int)
    requires
        0 <= x,
    ensures
        4 * x < (2 * rounded_sqrt(x) + 1) * (2 * rounded_sqrt(x) + 1),
        rounded_sqrt(x) == 0 || (2 * rounded_sqrt(x) - 1) * (2 * rounded_sqrt(x) - 1) <= 4 * x,
{
    lemma_floor_sqrt(0, 4 * x);
    let f = floor_sqrt(4 * x);
    let s = rounded_sqrt(x);
    assert(f <= 2 * s && 2 * s <= f + 1);
    assert((f + 1) * (f + 1) <= (2 * s + 1) * (2 * s + 1)) by (nonlinear_arith)
        requires
            0 <= f <= 2 * s,
    ;
    if s > 0 {
        assert((2 * s - 1) * (2 * s - 1) <= f * f) by (nonlinear_arith)
            requires
                1 <= 2 * s - 1 <= f,
        ;
    }
}

/// More hops cover at least as far.
pub proof fn lemma_covers_monotone(a: int, b: int, p: int, q: int, range: int, dsq: int)
    requires
        0 <= a <= b,
        0 < q,
        0 < range,
        covers(a, p, q, range, dsq),
    ensures
        covers(b, p, q, range, dsq),
{
    let m = q * range;
    assert(0 < m) by (nonlinear_arith)
        requires
            0 < q,
            0 < range,
            m == q * range,
    ;
    assert((m * a) * (m * a) <= (m * b) * (m * b)) by (nonlinear_arith)
        requires
            0 <= a <= b,
            0 < m,
    ;
}

proof fn lemma_hop_count_from(k: int, p: int, q: int, range: int, dsq: int)
    requires
        0 <= k,
        covers(k, p, q, range, dsq),
    ensures
        exists|n: int| is_hop_count(n, p, q, range, dsq),
    decreases k,
{
    if k == 0 || !covers(k - 1, p, q, range, dsq) {
        assert(is_hop_count(k, p, q, range, dsq));
    } else {
        lemma_hop_count_from(k - 1, p, q, range, dsq);
    }
}

/// The hop count exists and is the only count with its defining property.
pub proof fn lemma_hop_count(n: int, p: int, q: int, range: int, dsq: int)
    requires
        0 <= p,
        0 < q,
        0 < range,
        0 <= dsq,
    ensures
        is_hop_count(hop_count(p, q, range, dsq), p, q, range, dsq),
        is_hop_count(n, p, q, range, dsq) ==> n == hop_count(p, q, range, dsq),
{
    let k = p * p * dsq + 1;
    let m = q * range;
    assert(covers(k, p, q, range, dsq)) by (nonlinear_arith)
        requires
            k == p * p * dsq + 1,
            m == q * range,
            0 <= p,
            0 < q,
            0 < range,
            0 <= dsq,
    ;
    lemma_hop_count_from(k, p, q, range, dsq);
    let h = hop_count(p, q, range, dsq);
    if is_hop_count(n, p, q, range, dsq) && n != h {
        if n < h {
            lemma_covers_monotone(n, h - 1, p, q, range, dsq);
        } else {
            lemma_covers_monotone(h, n - 1, p, q, range, dsq);
        }
    }
}

/// The rounded-down square root of `x`.
fn floor_sqrt_exec(x: u128) -> (s: u128)
    requires
        x < ROOT_BOUND * ROOT_BOUND,
    ensures
        is_floor_sqrt(s as int, x as int),
        s < ROOT_BOUND,
{
    let mut lo: u128 = 0;
    let mut hi: u128 = ROOT_BOUND;
    while hi - lo > 1
        invariant
            lo < hi <= ROOT_BOUND,
            lo * lo <= x,
            x < hi * hi,
        decreases hi - lo,
    {
        let mid: u128 = lo + (hi - lo) / 2;
        assert(mid * mid <= ROOT_BOUND * ROOT_BOUND) by (nonlinear_arith)
            requires
                mid <= ROOT_BOUND,
        ;
        if mid * mid <= x {
            lo = mid;
        } else {
            hi = mid;
        }
    }
    lo
}

/// The ceiling of `p * sqrt(dsq) / (q * range)`, for the bounded inputs used here.
fn hops(p: u128, q: u128, range: u128, dsq: u128) -> (n: u64)
    requires
        p <= 8,
        0 < q <= 40,
        0 < range <= i64::MAX,
        dsq <= MAX_DISTANCE_SQUARED,
    ensures
        n as int == hop_count(p as int, q as int, range as int, dsq as int),
        n <= ROOT_BOUND,
{
    assert(p * p <= 64) by (nonlinear_arith)
        requires
            p <= 8,
    ;
    let pp: u128 = p * p;
    assert(pp * dsq <= 64 * dsq) by (nonlinear_arith)
        requires
            pp <= 64,
    ;
    assert(64 * dsq < ROOT_BOUND * ROOT_BOUND) by (nonlinear_arith)
        requires
            dsq <= MAX_DISTANCE_SQUARED,
    ;
    let t: u128 = pp * dsq;
    let f = floor_sqrt_exec(t);
    let c: u128 = if f * f == t {
        if f > 0 {
            assert((f - 1) * (f - 1) < f * f) by (nonlinear_arith)
                requires
                    f > 0,
            ;
        }
        f
    } else {
        assert((f + 1) * (f + 1) <= ROOT_BOUND * ROOT_BOUND) by (nonlinear_arith)
            requires
                f < ROOT_BOUND,
        ;
        f + 1
    };
    assert(c * c >= t && (c == 0 || (c - 1) * (c - 1) < t));
    assert(1 <= q * range <= 40 * i64::MAX) by (nonlinear_arith)
        requires
            0 < q <= 40,
            0 < range <= i64::MAX,
    ;
    let m: u128 = q * range;
    let n: u128 = (c + m - 1) / m;
    proof {
        let ci = c as int;
        let mi = m as int;
        let ni = n as int;
        let rem = (ci + mi - 1) % mi;
        vstd::arithmetic::div_mod::lemma_fundamental_div_mod(ci + mi - 1, mi);
        assert(ci + mi - 1 == mi * ni + rem);
        assert(0 <= rem < mi);
        assert(ni * mi >= ci && (ni == 0 || (ni - 1) * mi < ci)) by (nonlinear_arith)
            requires
                ci + mi - 1 == mi * ni + rem,
                0 <= rem < mi,
                0 <= ni,
        ;
        assert(mi * ni * (mi * ni) >= ci * ci) by (nonlinear_arith)
            requires
                ni * mi >= ci,
                ci >= 0,
        ;
        assert(covers(ni, p as int, q as int, range as int, dsq as int));
        if ni > 0 {
            assert(ci >= 1);
            assert((mi * (ni - 1)) * (mi * (ni - 1)) <= (ci - 1) * (ci - 1)) by (nonlinear_arith)
                requires
                    (ni - 1) * mi < ci,
                    ni >= 1,
                    mi >= 1,
            ;
            assert(!covers(ni - 1, p as int, q as int, range as int, dsq as int));
        }
        if ni > 0 {
            assert(ni - 1 <= (ni - 1) * mi) by (nonlinear_arith)
                requires
                    ni >= 1,
                    mi >= 1,
            ;
        }
        lemma_hop_count(ni, p as int, q as int, range as int, dsq as int);
    }
    n as u64
}

/// A coordinate triple lies within the supported span.
pub open spec fn coordinates_in_span(c: &SystemCoordinates) -> bool {
    -MAX_COORDINATE <= c.x <= MAX_COORDINATE && -MAX_COORDINATE <= c.y <= MAX_COORDINATE
        && -MAX_COORDINATE <= c.z <= MAX_COORDINATE
}

/// The squared Euclidean distance between two systems.
pub open spec fn distance_squared(a: &SystemCoordinates, b: &SystemCoordinates) -> int {
    (b.x - a.x) * (b.x - a.x) + (b.y - a.y) * (b.y - a.y) + (b.z - a.z) * (b.z - a.z)
}

/// The absolute difference of two in-span coordinates, with its square.
fn coordinate_gap(a: i64, b: i64) -> (g: u128)
    requires
        -MAX_COORDINATE <= a <= MAX_COORDINATE,
        -MAX_COORDINATE <= b <= MAX_COORDINATE,
    ensures
        g <= 2 * MAX_COORDINATE,
        g * g == (b - a) * (b - a),
{
    let d: i128 = b as i128 - a as i128;
    let g: u128 = if d < 0 {
        (-d) as u128
    } else {
        d as u128
    };
    assert(g * g == d * d) by (nonlinear_arith)
        requires
            g == d || g == -d,
    ;
    g
}

/// The squared distance between two in-span systems.
pub fn squared_distance(a: &SystemCoordinates, b: &SystemCoordinates) -> (r: u128)
    requires
        coordinates_in_span(a),
        coordinates_in_span(b),
    ensures
        r == distance_squared(a, b),
        r <= MAX_DISTANCE_SQUARED,
{
    let gx = coordinate_gap(a.x, b.x);
    let gy = coordinate_gap(a.y, b.y);
    let gz = coordinate_gap(a.z, b.z);
    assert(gx * gx + gy * gy + gz * gz <= MAX_DISTANCE_SQUARED) by (nonlinear_arith)
        requires
            gx <= 2_000_000_000_000_000,
            gy <= 2_000_000_000_000_000,
            gz <= 2_000_000_000_000_000,
    ;
    gx * gx + gy * gy + gz * gz
}

/// The distance whose square is `dsq`, rounded to the nearest whole unit.
pub fn rounded_distance(dsq: u128) -> (r: u64)
    requires
        dsq <= MAX_DISTANCE_SQUARED,
    ensures
        r as int == rounded_sqrt(dsq as int),
{
    assert(4 * dsq < ROOT_BOUND * ROOT_BOUND) by (nonlinear_arith)
        requires
            dsq <= MAX_DISTANCE_SQUARED,
    ;
    let f = floor_sqrt_exec(4 * dsq);
    proof {
        lemma_floor_sqrt(f as int, 4 * dsq);
    }
    ((f + 1) / 2) as u64
}

/// Kinds of star whose supercharge multiplies the jump range.
#[derive(Clone, Copy, Debug, PartialEq, Eq, Structural)]
pub enum StellarBoost {
    Unboosted,
    WhiteDwarf,
    NeutronStar,
}

/// The range multiplier of a boost, in tenths.
pub open spec fn multiplier_tenths(b: StellarBoost) -> int {
    match b {
        StellarBoost::Unboosted => 10,
        StellarBoost::WhiteDwarf => 15,
        StellarBoost::NeutronStar => 40,
    }
}

impl StellarBoost {
    /// The jump range multiplier, in tenths: 10 (none), 15 (white dwarf), 40 (neutron star).
    pub fn multiplier(self) -> (r: u64)
        ensures
            r == multiplier_tenths(self),
    {
        match self {
            StellarBoost::Unboosted => 10,
            StellarBoost::WhiteDwarf => 15,
            StellarBoost::NeutronStar => 40,
        }
    }
}

/// The three routing strategies.
#[derive(Clone, Copy, Debug, PartialEq, Eq, Structural)]
pub enum RouteKind {
    Direct,
    NeutronHighway,
    WhiteDwarfAssisted,
}

/// The label a route kind is reported under.
pub open spec fn route_label(k: RouteKind) -> Seq<char> {
    match k {
        RouteKind::Direct => "direct"@,
        RouteKind::NeutronHighway => "neutron highway"@,
        RouteKind::WhiteDwarfAssisted => "white dwarf assisted"@,
    }
}

impl RouteKind {
    /// The label this route kind is reported under.
    pub fn label(&self) -> (r: String)
        ensures
            r@ == route_label(*self),
    {
        match self {
            RouteKind::Direct => String::from_str("direct"),
            RouteKind::NeutronHighway => String::from_str("neutron highway"),
            RouteKind::WhiteDwarfAssisted => String::from_str("white dwarf assisted"),
        }
    }
}

/// Jumps needed without any boost: the ceiling of distance over range.
pub open spec fn direct_jumps(dsq: int, range: int) -> int {
    hop_count(1, 1, range, dsq)
}

/// Jumps needed when boosted by `tenths / 10`: one jump to reach the boosting star, then 80%
/// of the distance at the boosted range and 20% at the base range, each segment rounded up.
pub open spec fn boosted_jumps(dsq: int, range: int, tenths: int) -> int {
    1 + hop_count(8, tenths, range, dsq) + hop_count(2, 10, range, dsq)
}

/// The route picked among three candidate counts: neutron only if strictly below both
/// others, else white dwarf if strictly below direct, else direct.
pub open spec fn best_route(direct: int, neutron: int, white_dwarf: int) -> (int, RouteKind) {
    if neutron < direct && neutron < white_dwarf {
        (neutron, RouteKind::NeutronHighway)
    } else if white_dwarf < direct {
        (white_dwarf, RouteKind::WhiteDwarfAssisted)
    } else {
        (direct, RouteKind::Direct)
    }
}

/// The count and kind of route planned over the distance whose square is `dsq`.
pub open spec fn planned_route(dsq: int, range: int) -> (int, RouteKind) {
    best_route(
        direct_jumps(dsq, range),
        boosted_jumps(dsq, range, multiplier_tenths(StellarBoost::NeutronStar)),
        boosted_jumps(dsq, range, multiplier_tenths(StellarBoost::WhiteDwarf)),
    )
}

/// What `calculate_route` returns on valid input, field by field.
pub open spec fn route_matches(
    r: &JumpResult,
    from: &SystemCoordinates,
    to: &SystemCoordinates,
    range: int,
) -> bool {
    let dsq = distance_squared(from, to);
    &&& r.jumps == planned_route(dsq, range).0
    &&& r.total_distance == rounded_sqrt(dsq)
    &&& r.route_type@ == route_label(planned_route(dsq, range).1)
    &&& r.from_system@ == from.name@
    &&& r.to_system@ == to.name@
}

/// The error `calculate_route` reports on invalid input: a bad range first, then the first
/// system whose coordinates are out of span.
pub open spec fn route_error(
    e: EdjcError,
    from: &SystemCoordinates,
    to: &SystemCoordinates,
    range: i64,
) -> bool {
    if range <= 0 {
        e == EdjcError::InvalidJumpRange(range)
    } else if !coordinates_in_span(from) {
        e matches EdjcError::InvalidCoordinates(n) && n@ == from.name@
    } else {
        e matches EdjcError::InvalidCoordinates(n) && n@ == to.name@
    }
}

/// Jump counts for a route; holds the distances above which boosts are worth suggesting.
#[derive(Debug)]
pub struct JumpCalculator {
    pub neutron_threshold: u64,
    pub white_dwarf_threshold: u64,
}

/// Default distance above which a neutron highway is plausible (500 ly).
pub const DEFAULT_NEUTRON_THRESHOLD: u64 = 500_000;

/// Default distance above which white dwarf assistance is plausible (150 ly).
pub const DEFAULT_WHITE_DWARF_THRESHOLD: u64 = 150_000;

/// Detailed route information with its auxiliary estimates.
#[derive(Debug)]
pub struct RouteDetails {
    pub result: JumpResult,
    /// Estimated fuel, in grams.
    pub estimated_fuel_usage: u128,
    pub estimated_time_minutes: u128,
    pub can_use_neutron: bool,
    pub can_use_white_dwarf: bool,
}

/// Fuel estimate in grams: `jumps * 2 t * max(range / 20 ly, 0.5)`.
pub open spec fn fuel_grams(jumps: int, range: int) -> int {
    jumps * if 100 * range > 1_000_000 {
        100 * range
    } else {
        1_000_000
    }
}

impl JumpCalculator {
    /// A calculator with the default thresholds.
    pub fn new() -> (r: Self)
        ensures
            r.neutron_threshold == DEFAULT_NEUTRON_THRESHOLD,
            r.white_dwarf_threshold == DEFAULT_WHITE_DWARF_THRESHOLD,
    {
        JumpCalculator {
            neutron_threshold: DEFAULT_NEUTRON_THRESHOLD,
            white_dwarf_threshold: DEFAULT_WHITE_DWARF_THRESHOLD,
        }
    }

    /// A calculator with the given thresholds (milli-light-years).
    pub fn with_thresholds(neutron_threshold: u64, white_dwarf_threshold: u64) -> (r: Self)
        ensures
            r.neutron_threshold == neutron_threshold,
            r.white_dwarf_threshold == white_dwarf_threshold,
    {
        JumpCalculator { neutron_threshold, white_dwarf_threshold }
    }

    /// Jumps without boost over the distance whose square is `dsq`.
    pub fn calculate_jumps_direct(&self, dsq: u128, jump_range: i64) -> (n: u64)
        requires
            dsq <= MAX_DISTANCE_SQUARED,
            jump_range > 0,
        ensures
            n == direct_jumps(dsq as int, jump_range as int),
            n <= MAX_ROUTE_JUMPS,
    {
        hops(1, 1, jump_range as u128, dsq)
    }

    /// Jumps when the route is boosted by `boost`.
    pub fn calculate_jumps_with_boost(&self, dsq: u128, jump_range: i64, boost: StellarBoost) -> (n: u64)
        requires
            dsq <= MAX_DISTANCE_SQUARED,
            jump_range > 0,
        ensures
            n == boosted_jumps(dsq as int, jump_range as int, multiplier_tenths(boost)),
            n <= MAX_ROUTE_JUMPS,
    {
        let boosted = hops(8, boost.multiplier() as u128, jump_range as u128, dsq);
        let plain = hops(2, 10, jump_range as u128, dsq);
        1 + boosted + plain
    }

    /// The best route from `from` to `to` with the given base range (milli-light-years).
    pub fn calculate_route(
        &self,
        from: &SystemCoordinates,
        to: &SystemCoordinates,
        base_jump_range: i64,
    ) -> (r: Result<JumpResult, EdjcError>)
        ensures
            r.is_ok() <==> base_jump_range > 0 && coordinates_in_span(from) && coordinates_in_span(to),
            r matches Ok(res) ==> route_matches(&res, from, to, base_jump_range as int)
                && res.jumps <= MAX_ROUTE_JUMPS,
            r matches Err(e) ==> route_error(e, from, to, base_jump_range),
    {
        if base_jump_range <= 0 {
            return Err(EdjcError::InvalidJumpRange(base_jump_range));
        }
        if !in_span(from) {
            return Err(EdjcError::InvalidCoordinates(from.name.clone()));
        }
        if !in_span(to) {
            return Err(EdjcError::InvalidCoordinates(to.name.clone()));
        }
        let dsq = squared_distance(from, to);
        let total_distance = rounded_distance(dsq);
        let normal_jumps = self.calculate_jumps_direct(dsq, base_jump_range);
        let neutron_jumps = self.calculate_jumps_with_boost(dsq, base_jump_range, StellarBoost::NeutronStar);
        let white_dwarf_jumps = self.calculate_jumps_with_boost(dsq, base_jump_range, StellarBoost::WhiteDwarf);
        let (jumps, kind) = if neutron_jumps < normal_jumps && neutron_jumps < white_dwarf_jumps {
            (neutron_jumps, RouteKind::NeutronHighway)
        } else if white_dwarf_jumps < normal_jumps {
            (white_dwarf_jumps, RouteKind::WhiteDwarfAssisted)
        } else {
            (normal_jumps, RouteKind::Direct)
        };
        Ok(JumpResult {
            jumps,
            total_distance,
            route_type: kind.label(),
            from_system: from.name.clone(),
            to_system: to.name.clone(),
        })
    }

    /// Whether a neutron highway is plausible over `distance`.
    pub fn estimate_neutron_availability(&self, distance: u64) -> (r: bool)
        ensures
            r == (distance > self.neutron_threshold),
    {
        distance > self.neutron_threshold
    }

    /// Whether white dwarf assistance is plausible over `distance`.
    pub fn estimate_white_dwarf_availability(&self, distance: u64) -> (r: bool)
        ensures
            r == (distance > self.white_dwarf_threshold),
    {
        distance > self.white_dwarf_threshold
    }

    /// Estimated fuel in grams for `jumps` jumps at range `jump_range` (milli-light-years).
    pub fn estimate_fuel_usage(&self, jumps: u64, jump_range: i64) -> (r: u128)
        requires
            jumps <= MAX_ROUTE_JUMPS,
        ensures
            r == fuel_grams(jumps as int, jump_range as int),
    {
        let factor: u128 = if jump_range > 10_000 {
            100 * jump_range as u128
        } else {
            1_000_000
        };
        assert(jumps * factor <= MAX_ROUTE_JUMPS * (100 * i64::MAX as u128)) by (nonlinear_arith)
            requires
                factor <= 100 * i64::MAX as u128,
                jumps <= MAX_ROUTE_JUMPS,
        ;
        jumps as u128 * factor
    }

    /// Estimated travel time in minutes: two per jump.
    pub fn estimate_time_minutes(&self, jumps: u64) -> (r: u128)
        ensures
            r == 2 * jumps,
    {
        2 * jumps as u128
    }

    /// The route together with its fuel, time and boost-plausibility estimates.
    pub fn get_route_details(
        &self,
        from: &SystemCoordinates,
        to: &SystemCoordinates,
        base_jump_range: i64,
    ) -> (r: Result<RouteDetails, EdjcError>)
        ensures
            r.is_ok() <==> base_jump_range > 0 && coordinates_in_span(from) && coordinates_in_span(to),
            r matches Ok(d) ==> {
                &&& route_matches(&d.result, from, to, base_jump_range as int)
                &&& d.estimated_fuel_usage == fuel_grams(d.result.jumps as int, base_jump_range as int)
                &&& d.estimated_time_minutes == 2 * d.result.jumps
                &&& d.can_use_neutron == (d.result.total_distance > self.neutron_threshold)
                &&& d.can_use_white_dwarf == (d.result.total_distance > self.white_dwarf_threshold)
            },
            r matches Err(e) ==> route_error(e, from, to, base_jump_range),
    {
        let result = self.calculate_route(from, to, base_jump_range)?;
        let estimated_fuel_usage = self.estimate_fuel_usage(result.jumps, base_jump_range);
        let estimated_time_minutes = self.estimate_time_minutes(result.jumps);
        let can_use_neutron = self.estimate_neutron_availability(result.total_distance);
        let can_use_white_dwarf = self.estimate_white_dwarf_availability(result.total_distance);
        Ok(RouteDetails {
            result,
            estimated_fuel_usage,
            estimated_time_minutes,
            can_use_neutron,
            can_use_white_dwarf,
        })
    }
}

/// Whether a system's coordinates lie within the supported span.
pub fn in_span(c: &SystemCoordinates) -> (r: bool)
    ensures
        r == coordinates_in_span(c),
{
    -MAX_COORDINATE <= c.x && c.x <= MAX_COORDINATE && -MAX_COORDINATE <= c.y && c.y <= MAX_COORDINATE
        && -MAX_COORDINATE <= c.z && c.z <= MAX_COORDINATE
}

/// A route between two systems at the same point has no length and needs no jump: the
/// direct count at distance zero is zero, and it is the one chosen.
pub proof fn lemma_same_point_route(from: &SystemCoordinates, to: &SystemCoordinates, range: int)
    requires
        0 < range,
        from.x == to.x,
        from.y == to.y,
        from.z == to.z,
    ensures
        rounded_sqrt(distance_squared(from, to)) == 0,
        planned_route(distance_squared(from, to), range) == (0int, RouteKind::Direct),
{
    assert(distance_squared(from, to) == 0);
    assert(is_floor_sqrt(0, 0));
    lemma_floor_sqrt(0, 0);
    assert(is_hop_count(0, 1, 1, range, 0));
    assert(is_hop_count(0, 8, 40, range, 0));
    assert(is_hop_count(0, 8, 15, range, 0));
    assert(is_hop_count(0, 2, 10, range, 0));
    lemma_hop_count(0, 1, 1, range, 0);
    lemma_hop_count(0, 8, 40, range, 0);
    lemma_hop_count(0, 8, 15, range, 0);
    lemma_hop_count(0, 2, 10, range, 0);
}

/// The direct jump count never decreases as the distance grows (distances are compared by
/// their squares).
pub proof fn lemma_direct_jumps_monotone_in_distance(dsq1: int, dsq2: int, range: int)
    requires
        0 <= dsq1 <= dsq2,
        0 < range,
    ensures
        direct_jumps(dsq1, range) <= direct_jumps(dsq2, range),
{
    lemma_hop_count(0, 1, 1, range, dsq1);
    lemma_hop_count(0, 1, 1, range, dsq2);
    let n1 = direct_jumps(dsq1, range);
    let n2 = direct_jumps(dsq2, range);
    assert(covers(n2, 1, 1, range, dsq1)) by (nonlinear_arith)
        requires
            covers(n2, 1, 1, range, dsq2),
            dsq1 <= dsq2,
    ;
    if n1 > n2 {
        lemma_covers_monotone(n2, n1 - 1, 1, 1, range, dsq1);
    }
}

/// The direct jump count never increases as the range grows.
pub proof fn lemma_direct_jumps_antitone_in_range(dsq: int, range1: int, range2: int)
    requires
        0 <= dsq,
        0 < range1 <= range2,
    ensures
        direct_jumps(dsq, range1) >= direct_jumps(dsq, range2),
{
    lemma_hop_count(0, 1, 1, range1, dsq);
    lemma_hop_count(0, 1, 1, range2, dsq);
    let n1 = direct_jumps(dsq, range1);
    let n2 = direct_jumps(dsq, range2);
    assert((range1 * n1) * (range1 * n1) <= (range2 * n1) * (range2 * n1)) by (nonlinear_arith)
        requires
            0 < range1 <= range2,
            0 <= n1,
    ;
    assert(covers(n1, 1, 1, range2, dsq));
    if n2 > n1 {
        lemma_covers_monotone(n1, n2 - 1, 1, 1, range2, dsq);
    }
}

/// Two results of the same route calculation agree in every field: the calculation depends
/// on its inputs alone.
pub proof fn lemma_route_deterministic(
    a: &JumpResult,
    b: &JumpResult,
    from: &SystemCoordinates,
    to: &SystemCoordinates,
    range: int,
)
    requires
        route_matches(a, from, to, range),
        route_matches(b, from, to, range),
    ensures
        a.jumps == b.jumps,
        a.total_distance == b.total_distance,
        a.route_type@ == b.route_type@,
        a.from_system@ == b.from_system@,
        a.to_system@ == b.to_system@,
{
}

/// The chosen count is the least of the three candidates.
pub proof fn lemma_best_route_is_minimum(direct: int, neutron: int, white_dwarf: int)
    ensures
        best_route(direct, neutron, white_dwarf).0 <= direct,
        best_route(direct, neutron, white_dwarf).0 <= neutron,
        best_route(direct, neutron, white_dwarf).0 <= white_dwarf,
{
}

} // verus!
