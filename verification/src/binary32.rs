//! Exact integer model of the IEEE-754 binary32 arithmetic that the
//! luminance formula performs.
//!
//! All quantities here are non-negative and are counted in units of
//! `2^-27`: the natural number `x` stands for the real value `x / 2^27`.
//! At that scale the binary32 constants of the luminance formula, their
//! products with 8-bit channel values, and every sum of such products are
//! whole numbers, so rounding to binary32 is rounding a natural number to
//! its 24 most significant bits.

use vstd::prelude::*;

verus! {

/// `2^24`: binary32 significands hold 24 bits.
pub const SIGNIFICAND_LIMIT: u64 = 16777216;

/// `2^27`: the number of units in the real value `1.0`.
pub const UNITS_PER_ONE: u64 = 134217728;

/// Spacing of the binary32 values next to the (non-negative) value `x`,
/// in `2^-27` units: `1` while `x` fits in 24 bits, and doubled for every
/// further bit of `x`.
pub open spec fn binary32_ulp(x: nat) -> nat
    decreases x,
{
    if x < SIGNIFICAND_LIMIT {
        1
    } else {
        2 * binary32_ulp(x / 2)
    }
}

/// Round `x` to the nearest binary32 value, ties to the value with an
/// even significand (IEEE-754 round-to-nearest-even).
pub open spec fn round_binary32(x: nat) -> nat {
    let ulp = binary32_ulp(x);
    let q = x / ulp;
    let r = x % ulp;
    let up = 2 * r > ulp || (2 * r == ulp && q % 2 == 1);
    (if up { q + 1 } else { q }) * ulp
}

proof fn lemma_ulp_positive(x: nat)
    ensures
        binary32_ulp(x) >= 1,
    decreases x,
{
    if x >= SIGNIFICAND_LIMIT {
        lemma_ulp_positive(x / 2);
    }
}

/// Rounds `x` (in `2^-27` units) to binary32, exactly as the hardware does
/// for a non-negative value of this size.
pub fn round_to_binary32(x: u64) -> (res: u64)
    requires
        x < 0x100_0000_0000,
    ensures
        res == round_binary32(x as nat),
        res <= 2 * x,
{
    let mut t: u64 = x;
    let mut unit: u64 = 1;
    while t >= SIGNIFICAND_LIMIT
        invariant
            x < 0x100_0000_0000,
            1 <= unit,
            unit == 1 || unit <= x,
            unit == 1 || t >= SIGNIFICAND_LIMIT / 2,
            t == x as nat / unit as nat,
            unit * binary32_ulp(t as nat) == binary32_ulp(x as nat),
        decreases t,
    {
        proof {
            vstd::arithmetic::div_mod::lemma_div_denominator(x as int, unit as int, 2);
            vstd::arithmetic::div_mod::lemma_fundamental_div_mod(x as int, unit as int);
            vstd::arithmetic::mul::lemma_mul_is_associative(unit as int, 2, binary32_ulp((t / 2) as nat) as int);
            assert(unit * 2 <= x) by (nonlinear_arith)
                requires t >= SIGNIFICAND_LIMIT, t == x as nat / unit as nat, unit >= 1,
                    x as int == unit * (x as int / unit as int) + x as int % unit as int,
                    x as int % unit as int >= 0;
        }
        t = t / 2;
        unit = unit * 2;
    }
    proof {
        lemma_ulp_positive(t as nat);
        vstd::arithmetic::div_mod::lemma_fundamental_div_mod(x as int, unit as int);
        assert(binary32_ulp(t as nat) == 1);
        assert(unit == binary32_ulp(x as nat)) by (nonlinear_arith)
            requires unit * binary32_ulp(t as nat) == binary32_ulp(x as nat), binary32_ulp(t as nat) == 1;
        assert(t * unit <= x) by (nonlinear_arith)
            requires t == x as nat / unit as nat, unit >= 1,
                x as int == unit * (x as int / unit as int) + x as int % unit as int,
                x as int % unit as int >= 0;
    }
    let q = t;
    let r = x - q * unit;
    proof {
        assert(r == x as nat % unit as nat) by (nonlinear_arith)
            requires q == x as nat / unit as nat, r == x - q * unit,
                x as int == unit * (x as int / unit as int) + x as int % unit as int;
    }
    let up = 2 * r > unit || (2 * r == unit && q % 2 == 1);
    let qq = if up { q + 1 } else { q };
    proof {
        if unit == 1 {
            assert(qq == q);
        } else {
            assert(q * unit + unit <= 2 * x) by (nonlinear_arith)
                requires unit <= x, q * unit <= x;
            assert(qq * unit <= q * unit + unit) by (nonlinear_arith)
                requires qq <= q + 1;
        }
    }
    qq * unit
}

} // verus!

verus! {

/// Range of `x` for its spacing: below `2^24` spacings, and, once the
/// spacing exceeds 1, at least `2^23` spacings.
proof fn lemma_ulp_range(x: nat)
    ensures
        binary32_ulp(x) >= 1,
        x < SIGNIFICAND_LIMIT * binary32_ulp(x),
        binary32_ulp(x) > 1 ==> (SIGNIFICAND_LIMIT / 2) * binary32_ulp(x) <= x,
    decreases x,
{
    if x >= SIGNIFICAND_LIMIT {
        let h = x / 2;
        lemma_ulp_range(h);
        let u = binary32_ulp(h);
        assert(binary32_ulp(x) == 2 * u);
        assert(x < SIGNIFICAND_LIMIT * (2 * u)) by (nonlinear_arith)
            requires x <= 2 * h + 1, h < SIGNIFICAND_LIMIT * u, u >= 1;
        if u > 1 {
            assert((SIGNIFICAND_LIMIT / 2) * (2 * u) <= x) by (nonlinear_arith)
                requires (SIGNIFICAND_LIMIT / 2) * u <= h, 2 * h <= x;
        } else {
            assert((SIGNIFICAND_LIMIT / 2) * (2 * u) <= x) by (nonlinear_arith)
                requires u == 1, x >= SIGNIFICAND_LIMIT;
        }
    }
}

/// Spacings grow with the value, by at least a factor of two when they grow.
proof fn lemma_ulp_monotone(x: nat, y: nat)
    requires
        x <= y,
    ensures
        binary32_ulp(x) <= binary32_ulp(y),
        binary32_ulp(x) < binary32_ulp(y) ==> 2 * binary32_ulp(x) <= binary32_ulp(y),
    decreases y,
{
    lemma_ulp_range(x);
    lemma_ulp_range(y);
    if y >= SIGNIFICAND_LIMIT && x >= SIGNIFICAND_LIMIT {
        lemma_ulp_monotone(x / 2, y / 2);
    } else if y >= SIGNIFICAND_LIMIT {
        lemma_ulp_range(y / 2);
    }
}

/// Rounding to binary32 is monotone: a larger value never rounds lower.
pub proof fn lemma_round_monotone(x: nat, y: nat)
    requires
        x <= y,
    ensures
        round_binary32(x) <= round_binary32(y),
{
    lemma_ulp_range(x);
    lemma_ulp_range(y);
    lemma_ulp_monotone(x, y);
    let u = binary32_ulp(x);
    let v = binary32_ulp(y);
    let qx = x / u;
    let rx = x % u;
    let qy = y / v;
    let ry = y % v;
    vstd::arithmetic::div_mod::lemma_fundamental_div_mod(x as int, u as int);
    vstd::arithmetic::div_mod::lemma_fundamental_div_mod(y as int, v as int);
    let upx = 2 * rx > u || (2 * rx == u && qx % 2 == 1);
    let upy = 2 * ry > v || (2 * ry == v && qy % 2 == 1);
    let nx: nat = if upx { qx + 1 } else { qx };
    let ny: nat = if upy { qy + 1 } else { qy };
    assert(round_binary32(x) == nx * u);
    assert(round_binary32(y) == ny * v);
    if u == v {
        assert(qx <= qy) by (nonlinear_arith)
            requires x <= y, x == u * qx + rx, y == u * qy + ry, 0 <= rx < u, 0 <= ry < u;
        if qx < qy {
            assert(nx * u <= ny * v) by (nonlinear_arith)
                requires nx <= qx + 1, qx + 1 <= qy, qy <= ny, u == v, u >= 1;
        } else {
            assert(rx <= ry) by (nonlinear_arith)
                requires x <= y, x == u * qx + rx, y == u * qy + ry, qx == qy;
            assert(nx <= ny);
            assert(nx * u <= ny * v) by (nonlinear_arith)
                requires nx <= ny, u == v, u >= 1;
        }
    } else {
        assert(qx < SIGNIFICAND_LIMIT) by (nonlinear_arith)
            requires x < SIGNIFICAND_LIMIT * u, x == u * qx + rx, 0 <= rx, u >= 1;
        assert(nx * u <= SIGNIFICAND_LIMIT * u) by (nonlinear_arith)
            requires nx <= qx + 1, qx < SIGNIFICAND_LIMIT, u >= 1;
        assert(qy >= SIGNIFICAND_LIMIT / 2) by (nonlinear_arith)
            requires (SIGNIFICAND_LIMIT / 2) * v <= y, y == v * qy + ry, ry < v, v >= 1;
        assert(SIGNIFICAND_LIMIT * u <= ny * v) by (nonlinear_arith)
            requires 2 * u <= v, ny >= qy, qy >= SIGNIFICAND_LIMIT / 2, u >= 1;
    }
}

} // verus!
