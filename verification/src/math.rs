//! Integer arithmetic shared by the game rules.

use vstd::prelude::*;

verus! {

/// The quotient of `a` by a positive `b`, rounded toward zero.
pub open spec fn truncated_quotient(a: int, b: int) -> int
    recommends
        b > 0,
{
    if a >= 0 {
        a / b
    } else {
        -((-a) / b)
    }
}

/// `v`, moved to the nearest value an `i32` can hold.
pub open spec fn saturate_i32(v: int) -> int {
    if v < i32::MIN as int {
        i32::MIN as int
    } else if v > i32::MAX as int {
        i32::MAX as int
    } else {
        v
    }
}

/// `v`, moved to the nearest value an `i64` can hold.
pub open spec fn saturate_i64(v: int) -> int {
    if v < i64::MIN as int {
        i64::MIN as int
    } else if v > i64::MAX as int {
        i64::MAX as int
    } else {
        v
    }
}

/// `v`, moved to the nearest value a `usize` can hold.
pub open spec fn saturate_usize(v: int) -> int {
    if v < 0 {
        0
    } else if v > usize::MAX as int {
        usize::MAX as int
    } else {
        v
    }
}

/// `value`, moved to the nearest value an `i64` can hold.
pub fn saturating(value: i128) -> (kept: i64)
    ensures
        kept as int == saturate_i64(value as int),
{
    if value < i64::MIN as i128 {
        i64::MIN
    } else if value > i64::MAX as i128 {
        i64::MAX
    } else {
        value as i64
    }
}

/// Whether `root` is the square root of `n`, rounded down.
pub open spec fn is_integer_sqrt(n: nat, root: nat) -> bool {
    root * root <= n < (root + 1) * (root + 1)
}

/// The square root of `n`, rounded down.
pub open spec fn integer_sqrt(n: nat) -> nat {
    choose|root: nat| is_integer_sqrt(n, root)
}

/// A number has at most one rounded-down square root.
pub proof fn integer_sqrt_is_unique(n: nat, a: nat, b: nat)
    requires
        is_integer_sqrt(n, a),
        is_integer_sqrt(n, b),
    ensures
        a == b,
{
    if a < b {
        assert((a + 1) * (a + 1) <= b * b) by (nonlinear_arith)
            requires
                a + 1 <= b,
        ;
    }
    if b < a {
        assert((b + 1) * (b + 1) <= a * a) by (nonlinear_arith)
            requires
                b + 1 <= a,
        ;
    }
}

/// Every number has a rounded-down square root.
pub proof fn integer_sqrt_exists(n: nat)
    ensures
        is_integer_sqrt(n, integer_sqrt(n)),
    decreases n,
{
    if n == 0 {
        let zero: nat = 0;
        assert(zero * zero == 0 && (zero + 1) * (zero + 1) == 1) by (nonlinear_arith)
            requires
                zero == 0,
        ;
        assert(is_integer_sqrt(0, zero));
    } else {
        integer_sqrt_exists((n - 1) as nat);
        let below = integer_sqrt((n - 1) as nat);
        if (below + 1) * (below + 1) <= n {
            assert(n < (below + 2) * (below + 2)) by (nonlinear_arith)
                requires
                    n - 1 < (below + 1) * (below + 1),
            ;
            assert(is_integer_sqrt(n, below + 1));
        } else {
            assert(is_integer_sqrt(n, below));
        }
    }
}

/// The square root of `n`, rounded down, found by bisection.
pub fn isqrt(n: u128) -> (root: u64)
    ensures
        is_integer_sqrt(n as nat, root as nat),
        root as nat == integer_sqrt(n as nat),
{
    let mut low: u128 = 0;
    let mut high: u128 = 0x1_0000_0000_0000_0000;
    assert(high * high > n) by (nonlinear_arith)
        requires
            high == 0x1_0000_0000_0000_0000,
            n <= u128::MAX,
    ;
    while high - low > 1
        invariant
            low < high <= 0x1_0000_0000_0000_0000,
            low * low <= n < high * high,
        decreases high - low,
    {
        let middle: u128 = low + (high - low) / 2;
        assert(middle * middle <= 0xffff_ffff_ffff_ffff * 0xffff_ffff_ffff_ffff)
            by (nonlinear_arith)
            requires
                0 <= middle <= 0xffff_ffff_ffff_ffff,
        ;
        if middle * middle <= n {
            low = middle;
        } else {
            high = middle;
        }
    }
    proof {
        assert(high == low + 1);
        assert(is_integer_sqrt(n as nat, low as nat));
        integer_sqrt_is_unique(n as nat, low as nat, integer_sqrt(n as nat));
    }
    low as u64
}

/// The root of a sum of two squares is at least as long as either side.
pub proof fn hypotenuse_is_longest(a: int, b: int, root: nat)
    requires
        is_integer_sqrt((a * a + b * b) as nat, root),
    ensures
        -root <= a <= root,
        -root <= b <= root,
{
    assert(a * a >= 0 && b * b >= 0) by (nonlinear_arith);
    if a > root {
        assert(a * a >= (root + 1) * (root + 1)) by (nonlinear_arith)
            requires
                a >= root + 1,
                root >= 0,
        ;
    }
    if a < -root {
        assert(a * a >= (root + 1) * (root + 1)) by (nonlinear_arith)
            requires
                -a >= root + 1,
                root >= 0,
        ;
    }
    if b > root {
        assert(b * b >= (root + 1) * (root + 1)) by (nonlinear_arith)
            requires
                b >= root + 1,
                root >= 0,
        ;
    }
    if b < -root {
        assert(b * b >= (root + 1) * (root + 1)) by (nonlinear_arith)
            requires
                -b >= root + 1,
                root >= 0,
        ;
    }
}

} // verus!
