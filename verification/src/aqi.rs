//! The air quality index: piecewise-linear interpolation over breakpoint
//! tables, in exact integer arithmetic.
//!
//! Readings are whole micrograms per cubic metre. Breakpoint tables are kept in
//! tenths of a microgram, so that every published threshold is an integer and
//! no rounding happens before the final truncation.

use vstd::prelude::*;
use crate::reading::AirGradientData;
use vstd::arithmetic::div_mod::{lemma_div_is_ordered, lemma_div_by_multiple, lemma_div_pos_is_pos};
use vstd::arithmetic::mul::{lemma_mul_inequality, lemma_mul_is_commutative, lemma_mul_nonnegative};

verus! {

/// The index value that belongs to breakpoint `i` of every table.
pub open spec fn index_at(i: int) -> int {
    if i <= 0 {
        0
    } else if i == 1 {
        50
    } else if i == 2 {
        100
    } else if i == 3 {
        150
    } else if i == 4 {
        200
    } else if i == 5 {
        300
    } else {
        500
    }
}

/// A breakpoint table: seven thresholds in tenths of a microgram per cubic
/// metre, starting at zero and strictly ascending.
pub open spec fn valid_table(t: Seq<u32>) -> bool {
    &&& t.len() == 7
    &&& t[0] == 0
    &&& t[0] < t[1]
    &&& t[1] < t[2]
    &&& t[2] < t[3]
    &&& t[3] < t[4]
    &&& t[4] < t[5]
    &&& t[5] < t[6]
}

/// Thresholds for fine particulate matter (PM2.5), in tenths.
pub open spec fn pm02_table() -> Seq<u32> {
    seq![0u32, 90u32, 354u32, 554u32, 1254u32, 2254u32, 3254u32]
}

/// Thresholds for coarse particulate matter (PM10), in tenths.
pub open spec fn pm10_table() -> Seq<u32> {
    seq![0u32, 540u32, 1540u32, 2540u32, 3540u32, 4240u32, 6040u32]
}

/// The bracket of a concentration `c` (in tenths): the smallest `i` from 1 to
/// 6 with `c < t[i]`, and 6 for everything at or above the last threshold.
pub open spec fn bracket(c: int, t: Seq<u32>) -> int {
    if c < t[1] {
        1
    } else if c < t[2] {
        2
    } else if c < t[3] {
        3
    } else if c < t[4] {
        4
    } else if c < t[5] {
        5
    } else {
        6
    }
}

/// The index of a concentration `c` (in tenths) on the line through the two
/// breakpoints of its bracket, truncated to an integer.
pub open spec fn interpolate(c: int, t: Seq<u32>) -> int {
    let i = bracket(c, t);
    index_at(i - 1) + ((index_at(i) - index_at(i - 1)) * (c - t[i - 1])) / (t[i] - t[i - 1])
}

/// The sub-index of one pollutant for a reading of `datum` whole micrograms,
/// held to what 32 bits can carry.
pub open spec fn sub_index(datum: u32, t: Seq<u32>) -> int {
    let v = interpolate(10 * datum, t);
    if v > u32::MAX {
        u32::MAX as int
    } else {
        v
    }
}

/// The larger of two indices.
pub open spec fn max_index(a: int, b: int) -> int {
    if a >= b {
        a
    } else {
        b
    }
}

/// The overall index of a PM2.5 and a PM10 reading: the larger sub-index.
pub open spec fn overall_index(pm02: u32, pm10: u32) -> int {
    max_index(sub_index(pm02, pm02_table()), sub_index(pm10, pm10_table()))
}

/// The PM2.5 breakpoint table.
pub fn pm02_breakpoints() -> (t: [u32; 7])
    ensures
        t@ == pm02_table(),
        valid_table(t@),
{
    let t: [u32; 7] = [0, 90, 354, 554, 1254, 2254, 3254];
    assert(t@ =~= pm02_table());
    t
}

/// The PM10 breakpoint table.
pub fn pm10_breakpoints() -> (t: [u32; 7])
    ensures
        t@ == pm10_table(),
        valid_table(t@),
{
    let t: [u32; 7] = [0, 540, 1540, 2540, 3540, 4240, 6040];
    assert(t@ =~= pm10_table());
    t
}

/// The index value at breakpoint `i`.
pub fn index_breakpoint(i: usize) -> (v: u32)
    requires
        i <= 6,
    ensures
        v == index_at(i as int),
{
    if i == 0 {
        0
    } else if i == 1 {
        50
    } else if i == 2 {
        100
    } else if i == 3 {
        150
    } else if i == 4 {
        200
    } else if i == 5 {
        300
    } else {
        500
    }
}

/// `(k * x) / d` lies between 0 and `k` when `x` lies between 0 and `d`.
proof fn lemma_scaled_quotient_bounds(k: int, x: int, d: int)
    requires
        0 <= k,
        0 <= x,
        0 < d,
    ensures
        0 <= (k * x) / d,
        x <= d ==> (k * x) / d <= k,
{
    lemma_mul_nonnegative(k, x);
    lemma_div_pos_is_pos(k * x, d);
    if x <= d {
        lemma_mul_inequality(x, d, k);
        lemma_mul_is_commutative(k, x);
        lemma_mul_is_commutative(k, d);
        lemma_div_is_ordered(k * x, k * d, d);
        lemma_div_by_multiple(k, d);
    }
}

/// `(k * x) / d` does not fall when `x` grows.
proof fn lemma_scaled_quotient_monotone(k: int, x: int, y: int, d: int)
    requires
        0 <= k,
        x <= y,
        0 < d,
    ensures
        (k * x) / d <= (k * y) / d,
{
    lemma_mul_inequality(x, y, k);
    lemma_mul_is_commutative(k, x);
    lemma_mul_is_commutative(k, y);
    lemma_div_is_ordered(k * x, k * y, d);
}

/// Within its bracket an interpolated index stays between the bracket's two
/// index breakpoints; above the last threshold only the lower bound holds.
pub proof fn lemma_interpolate_bounds(c: int, t: Seq<u32>)
    requires
        valid_table(t),
        0 <= c,
    ensures
        index_at(bracket(c, t) - 1) <= interpolate(c, t),
        c < t[6] ==> interpolate(c, t) <= index_at(bracket(c, t)),
{
    let i = bracket(c, t);
    let k = index_at(i) - index_at(i - 1);
    lemma_scaled_quotient_bounds(k, c - t[i - 1], t[i] - t[i - 1]);
}

/// An interpolated index does not fall when the concentration grows, within a
/// bracket and from one bracket to the next.
pub proof fn lemma_interpolate_monotone(c1: int, c2: int, t: Seq<u32>)
    requires
        valid_table(t),
        0 <= c1 <= c2,
    ensures
        interpolate(c1, t) <= interpolate(c2, t),
{
    let i1 = bracket(c1, t);
    let i2 = bracket(c2, t);
    if i1 == i2 {
        let k = index_at(i1) - index_at(i1 - 1);
        lemma_scaled_quotient_monotone(k, c1 - t[i1 - 1], c2 - t[i1 - 1], t[i1] - t[i1 - 1]);
    } else {
        lemma_interpolate_bounds(c1, t);
        lemma_interpolate_bounds(c2, t);
    }
}

/// The sub-index of a pollutant is monotonically non-decreasing in the
/// reading: a higher concentration never gives a lower index. This holds in
/// every bracket, the open-ended top bracket included.
pub proof fn lemma_sub_index_monotone(a: u32, b: u32, t: Seq<u32>)
    requires
        valid_table(t),
        a <= b,
    ensures
        sub_index(a, t) <= sub_index(b, t),
{
    lemma_interpolate_monotone(10 * a, 10 * b, t);
}

/// A reading that sits exactly on a threshold gets exactly the index
/// breakpoint of that threshold: 0 at the first, 500 at the last.
pub proof fn lemma_sub_index_at_breakpoint(datum: u32, i: int, t: Seq<u32>)
    requires
        valid_table(t),
        0 <= i <= 6,
        10 * datum == t[i],
    ensures
        sub_index(datum, t) == index_at(i),
{
    let c = t[i] as int;
    if i < 6 {
        assert(bracket(c, t) == i + 1);
        let k = index_at(i + 1) - index_at(i);
        assert(k * (c - t[i]) == 0) by (nonlinear_arith)
            requires
                c - t[i] == 0,
        ;
    } else {
        assert(bracket(c, t) == 6);
        lemma_div_by_multiple(200, t[6] - t[5]);
    }
}

/// The sub-index of one pollutant: finds the bracket of the reading in the
/// breakpoint table and interpolates between the bracket's two index values.
pub fn compute_one_aqi(datum: u32, table: &[u32; 7]) -> (aqi: u32)
    requires
        valid_table(table@),
    ensures
        aqi == sub_index(datum, table@),
{
    let c: u64 = 10 * (datum as u64);
    let mut i: usize = 1;
    while i < 6 && c >= table[i] as u64
        invariant
            1 <= i <= 6,
            valid_table(table@),
            forall|j: int| 1 <= j < i ==> c >= #[trigger] table@[j],
        decreases 6 - i,
    {
        i += 1;
    }
    assert(bracket(c as int, table@) == i);
    let lo: u64 = index_breakpoint(i - 1) as u64;
    let hi: u64 = index_breakpoint(i) as u64;
    let below: u64 = table[i - 1] as u64;
    let above: u64 = table[i] as u64;
    assert(below <= c);
    assert((hi - lo) * (c - below) <= 8589934590000) by (nonlinear_arith)
        requires
            0 <= hi - lo <= 200,
            0 <= c - below <= 42949672950,
    ;
    let rise: u64 = ((hi - lo) * (c - below)) / (above - below);
    proof {
        let span = (above - below) as int;
        let top: int = 8589934590000int;
        lemma_div_is_ordered(((hi - lo) * (c - below)) as int, top, span);
        assert(top / span <= top) by (nonlinear_arith)
            requires
                0 < span,
                0 <= top,
        ;
    }
    let v: u64 = lo + rise;
    if v > u32::MAX as u64 {
        u32::MAX
    } else {
        v as u32
    }
}

/// The overall air quality index of a reading: the larger of the sub-indices
/// of its PM2.5 and its PM10 concentration. The nitrogen oxide reading takes
/// no part.
pub fn compute_aqi(data: &AirGradientData) -> (aqi: u32)
    ensures
        aqi == overall_index(data.pm02, data.pm10),
        aqi >= sub_index(data.pm02, pm02_table()),
        aqi >= sub_index(data.pm10, pm10_table()),
        aqi == sub_index(data.pm02, pm02_table()) || aqi == sub_index(data.pm10, pm10_table()),
{
    let fine_table = pm02_breakpoints();
    let coarse_table = pm10_breakpoints();
    let fine = compute_one_aqi(data.pm02, &fine_table);
    let coarse = compute_one_aqi(data.pm10, &coarse_table);
    if fine >= coarse {
        fine
    } else {
        coarse
    }
}

} // verus!
