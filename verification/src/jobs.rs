use vstd::prelude::*;

verus! {

/// Whether `k` is the whole part of `x / (10000 * sqrt(n))`: the largest
/// number whose product with `10000 * sqrt(n)` does not exceed `x`. The
/// test is made on the squares, where it needs whole numbers only.
pub open spec fn spec_is_scaled_floor(k: nat, x: nat, n: nat) -> bool {
    k * k * 100000000 * n <= x * x < (k + 1) * (k + 1) * 100000000 * n
}

/// The whole part of `x / (10000 * sqrt(n))`, for `n` at least 1.
pub open spec fn spec_scaled_floor(x: nat, n: nat) -> nat {
    choose|k: nat| spec_is_scaled_floor(k, x, n)
}

/// `v` held between `low` and `high`.
pub open spec fn spec_clamp(v: int, low: int, high: int) -> int {
    if v < low {
        low
    } else if v > high {
        high
    } else {
        v
    }
}

/// The number of make jobs for a build: the base number, scaled by how
/// well the phase runs in parallel and by how much processor it takes (both
/// in hundredths), divided by the square root of the number of active
/// builds, cut to a whole number, and held between one and the number of
/// logical cores.
pub open spec fn spec_optimal_jobs(
    base: nat,
    efficiency_pct: nat,
    cpu_pct: nat,
    active: nat,
    cores: nat,
) -> int {
    let n: nat = if active == 0 {
        1
    } else {
        active
    };
    let high: int = if cores == 0 {
        1
    } else {
        cores as int
    };
    spec_clamp(spec_scaled_floor(base * efficiency_pct * cpu_pct, n) as int, 1, high)
}

/// Squares grow with their roots.
proof fn lemma_square_monotone(a: nat, b: nat)
    requires
        a <= b,
    ensures
        a * a <= b * b,
{
    assert(a * a <= b * b) by (nonlinear_arith)
        requires
            a <= b,
    ;
}

/// At most one number is the whole part of a quotient.
pub proof fn lemma_scaled_floor_unique(k1: nat, k2: nat, x: nat, n: nat)
    requires
        n >= 1,
        spec_is_scaled_floor(k1, x, n),
        spec_is_scaled_floor(k2, x, n),
    ensures
        k1 == k2,
{
    if k1 < k2 {
        lemma_square_monotone(k1 + 1, k2);
        assert((k1 + 1) * (k1 + 1) * 100000000 * n <= k2 * k2 * 100000000 * n) by (nonlinear_arith)
            requires
                (k1 + 1) * (k1 + 1) <= k2 * k2,
        ;
    }
    if k2 < k1 {
        lemma_square_monotone(k2 + 1, k1);
        assert((k2 + 1) * (k2 + 1) * 100000000 * n <= k1 * k1 * 100000000 * n) by (nonlinear_arith)
            requires
                (k2 + 1) * (k2 + 1) <= k1 * k1,
        ;
    }
}

/// The whole part of `x / (10000 * sqrt(n))`.
pub fn scaled_floor(x: u64, n: u64) -> (k: u64)
    requires
        n >= 1,
        x <= 0xffff_ffff,
    ensures
        spec_is_scaled_floor(k as nat, x as nat, n as nat),
        k as nat == spec_scaled_floor(x as nat, n as nat),
        k <= x,
{
    assert(x * x <= 0xffff_ffff * 0xffff_ffff) by (nonlinear_arith)
        requires
            x <= 0xffff_ffff,
    ;
    let xx: u128 = (x as u128) * (x as u128);
    let unit: u128 = 100000000u128 * (n as u128);
    if unit > xx {
        proof {
            assert(0 * 0 * 100000000 * n == 0) by (nonlinear_arith);
            assert((0 + 1) * (0 + 1) * 100000000 * n == 100000000 * n) by (nonlinear_arith);
            assert(spec_is_scaled_floor(0, x as nat, n as nat));
            lemma_scaled_floor_unique(
                0,
                spec_scaled_floor(x as nat, n as nat),
                x as nat,
                n as nat,
            );
        }
        return 0;
    }
    let limit: u64 = x / 10000;
    let mut k: u64 = 0;
    assert(0 * 0 * 100000000 * n <= x * x) by (nonlinear_arith);
    loop
        invariant
            n >= 1,
            x <= 0xffff_ffff,
            xx == x * x,
            xx <= 0xffff_ffff * 0xffff_ffff,
            unit == 100000000 * n,
            unit <= xx,
            limit == x / 10000,
            k <= limit,
            k * k * 100000000 * n <= x * x,
        decreases limit - k,
    {
        let next: u128 = (k as u128) + 1;
        assert(next * next <= 0x8_0000 * 0x8_0000) by (nonlinear_arith)
            requires
                next <= 0x8_0000,
        ;
        let sq: u128 = next * next;
        assert(sq * unit <= (0x8_0000 * 0x8_0000) * (0xffff_ffff * 0xffff_ffff)) by (nonlinear_arith)
            requires
                sq <= 0x8_0000 * 0x8_0000,
                unit <= 0xffff_ffff * 0xffff_ffff,
        ;
        let bound: u128 = sq * unit;
        assert(bound == (k + 1) * (k + 1) * 100000000 * n) by (nonlinear_arith)
            requires
                bound == sq * unit,
                sq == next * next,
                next == k + 1,
                unit == 100000000 * n,
        ;
        if bound > xx {
            proof {
                assert(spec_is_scaled_floor(k as nat, x as nat, n as nat));
                lemma_scaled_floor_unique(
                    k as nat,
                    spec_scaled_floor(x as nat, n as nat),
                    x as nat,
                    n as nat,
                );
            }
            return k;
        }
        proof {
            if k == limit {
                assert((k + 1) * 10000 > x);
                assert((k + 1) * (k + 1) * 100000000 * n > x * x) by (nonlinear_arith)
                    requires
                        (k + 1) * 10000 > x,
                        n >= 1,
                        x >= 0,
                        k >= 0,
                ;
            }
        }
        k = k + 1;
    }
}

/// The number of make jobs for a build.
pub fn optimal_jobs(base: u16, efficiency_pct: u8, cpu_pct: u8, active: usize, cores: usize) -> (res:
    usize)
    ensures
        res == spec_optimal_jobs(
            base as nat,
            efficiency_pct as nat,
            cpu_pct as nat,
            active as nat,
            cores as nat,
        ),
        1 <= res,
        cores >= 1 ==> res <= cores,
{
    let n: u64 = if active == 0 {
        1
    } else {
        active as u64
    };
    let high: usize = if cores == 0 {
        1
    } else {
        cores
    };
    assert(base * efficiency_pct <= 65535 * 255) by (nonlinear_arith)
        requires
            base <= 65535,
            efficiency_pct <= 255,
    ;
    let scaled: u64 = (base as u64) * (efficiency_pct as u64);
    assert(scaled * cpu_pct <= 65535 * 255 * 255) by (nonlinear_arith)
        requires
            scaled <= 65535 * 255,
            cpu_pct <= 255,
    ;
    let x: u64 = scaled * (cpu_pct as u64);
    let k = scaled_floor(x, n);
    if k < 1 {
        1
    } else if k > high as u64 {
        high
    } else {
        k as usize
    }
}

} // verus!
