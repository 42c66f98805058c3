//! Fixed-point arithmetic helpers.
//!
//! The compensation formulas are integer formulas whose reference form is
//! written with C's truncating division, arithmetic shifts and two's
//! complement wrap-around at 32 bits. These helpers give each of those
//! operations an exact mathematical meaning over `int`, together with
//! executable counterparts proved against it.

use vstd::prelude::*;

verus! {

use vstd::arithmetic::div_mod::{
    lemma_div_nonincreasing,
    lemma_div_pos_is_pos,
    lemma_fundamental_div_mod,
    lemma_fundamental_div_mod_converse_div,
    lemma_fundamental_div_mod_converse_mod,
};

/// Truncating (round toward zero) division, the meaning of C's `/` operator.
pub open spec fn tdiv(a: int, b: int) -> int {
    let q = (if a >= 0 {
        a
    } else {
        -a
    }) / (if b >= 0 {
        b
    } else {
        -b
    });
    if (a >= 0) == (b >= 0) {
        q
    } else {
        -q
    }
}

/// Two's complement wrap-around into the range `[-half, half)`.
pub open spec fn wrap_signed(x: int, half: int) -> int {
    ((x + half) % (2 * half)) - half
}

/// Wrap-around of a 32-bit signed intermediate, the meaning of an assignment
/// to a 32-bit variable in the reference formulas.
pub open spec fn wrap32(x: int) -> int {
    wrap_signed(x, 0x8000_0000)
}

/// Wrap-around of a 16-bit signed intermediate.
pub open spec fn wrap16(x: int) -> int {
    wrap_signed(x, 0x8000)
}

/// The value of a byte read back as an 8-bit two's complement number.
pub open spec fn as_signed8(b: int) -> int {
    if b >= 0x80 {
        b - 0x100
    } else {
        b
    }
}

/// The value of a 16-bit word read back as a two's complement number.
pub open spec fn as_signed16(w: int) -> int {
    if w >= 0x8000 {
        w - 0x1_0000
    } else {
        w
    }
}

/// Floor division by a positive divisor: the meaning of a C arithmetic right
/// shift by `log2(p)` bits. Spec-side this is plain Euclidean `/`; the body
/// maps Rust's truncating `/` onto it.
pub fn sar(x: i64, p: i64) -> (r: i64)
    requires
        p >= 1,
        x > i64::MIN + p,
    ensures
        r == x as int / p as int,
        x >= 0 ==> 0 <= r <= x,
        x < 0 ==> x <= r <= 0,
        (p as int) * r <= x as int,
        (x as int) < (p as int) * r + (p as int),
{
    proof {
        lemma_fundamental_div_mod(x as int, p as int);
    }
    if x >= 0 {
        proof {
            lemma_div_pos_is_pos(x as int, p as int);
            lemma_div_nonincreasing(x as int, p as int);
        }
        x / p
    } else {
        proof {
            let xi = x as int;
            let pi = p as int;
            lemma_fundamental_div_mod(xi, pi);
            let q = xi / pi;
            let s = xi % pi;
            assert(pi * (-q) == -(pi * q)) by (nonlinear_arith);
            assert(pi - 1 - xi == pi * (-q) + (pi - 1 - s));
            lemma_fundamental_div_mod_converse_div(pi - 1 - xi, pi, -q, pi - 1 - s);
            assert(xi <= q <= 0) by (nonlinear_arith)
                requires
                    xi == pi * q + s,
                    0 <= s < pi,
                    pi >= 1,
                    xi < 0,
            ;
        }
        (x - (p - 1)) / p
    }
}

/// Truncating division with a positive divisor, exactly C's `/`.
pub fn tdiv64(a: i64, b: i64) -> (r: i64)
    requires
        b >= 1,
        a > i64::MIN,
    ensures
        r == tdiv(a as int, b as int),
        a >= 0 ==> 0 <= r <= a,
        a < 0 ==> a <= r <= 0,
        a >= 0 ==> (b as int) * r <= a as int && (a as int) < (b as int) * r + (b as int),
        a < 0 ==> (b as int) * r - (b as int) < a as int && a as int <= (b as int) * r,
{
    proof {
        lemma_fundamental_div_mod(a as int, b as int);
        lemma_fundamental_div_mod(-(a as int), b as int);
        assert((b as int) * (-((-(a as int)) / (b as int))) == -((b as int) * ((-(a as int)) / (
        b as int)))) by (nonlinear_arith);
        if a >= 0 {
            lemma_div_pos_is_pos(a as int, b as int);
            lemma_div_nonincreasing(a as int, b as int);
        } else {
            lemma_div_pos_is_pos(-(a as int), b as int);
            lemma_div_nonincreasing(-(a as int), b as int);
        }
    }
    a / b
}

/// Two's complement wrap-around into `[-half, half)`, computed exactly.
pub fn wrap_to(x: i64, half: i64) -> (r: i64)
    requires
        1 <= half <= 0x8000_0000,
        -0x4000_0000_0000_0000 <= x <= 0x4000_0000_0000_0000,
    ensures
        r == wrap_signed(x as int, half as int),
        -half <= r < half,
{
    let b: i64 = 2 * half;
    let q: i64 = sar(x, b);
    proof {
        lemma_fundamental_div_mod(x as int, b as int);
        assert((q as int) * (b as int) == (b as int) * (q as int)) by (nonlinear_arith);
    }
    let n: i64 = x - q * b;
    proof {
        let xi = x as int;
        let bi = b as int;
        let hi = half as int;
        assert(n == xi % bi);
        if n >= half {
            assert(xi + hi == bi * ((xi / bi) + 1) + (n + hi - bi)) by (nonlinear_arith)
                requires
                    xi == bi * (xi / bi) + n,
            ;
            lemma_fundamental_div_mod_converse_mod(xi + hi, bi, (xi / bi) + 1, n + hi - bi);
        } else {
            assert((xi + hi) == bi * (xi / bi) + (n + hi));
            lemma_fundamental_div_mod_converse_mod(xi + hi, bi, xi / bi, n + hi);
        }
    }
    if n >= half {
        n - b
    } else {
        n
    }
}

/// Wrap-around to a 32-bit signed value.
pub fn wrap_i32(x: i64) -> (r: i32)
    requires
        -0x4000_0000_0000_0000 <= x <= 0x4000_0000_0000_0000,
    ensures
        r as int == wrap32(x as int),
{
    wrap_to(x, 0x8000_0000) as i32
}

/// Wrap-around to a 16-bit signed value.
pub fn wrap_i16(x: i64) -> (r: i16)
    requires
        -0x4000_0000_0000_0000 <= x <= 0x4000_0000_0000_0000,
    ensures
        r as int == wrap16(x as int),
{
    wrap_to(x, 0x8000) as i16
}

/// Conversion to an unsigned byte, the meaning of a C cast to `uint8_t`:
/// the value modulo 256.
pub fn umod_u8(x: i64) -> (r: u8)
    requires
        -0x4000_0000_0000_0000 <= x <= 0x4000_0000_0000_0000,
    ensures
        r as int == x as int % 0x100,
{
    let q: i64 = sar(x, 0x100);
    proof {
        lemma_fundamental_div_mod(x as int, 0x100);
    }
    (x - q * 0x100) as u8
}

/// Truncating division by a divisor of either sign, exactly C's `/`.
pub fn tdiv_any(a: i64, b: i64) -> (r: i64)
    requires
        b != 0,
        a > i64::MIN,
        b > i64::MIN,
    ensures
        r == tdiv(a as int, b as int),
        -(if a >= 0 {
            a as int
        } else {
            -(a as int)
        }) <= r <= (if a >= 0 {
            a as int
        } else {
            -(a as int)
        }),
{
    let an: i64 = if a < 0 {
        -a
    } else {
        a
    };
    let bn: i64 = if b < 0 {
        -b
    } else {
        b
    };
    proof {
        lemma_div_pos_is_pos(an as int, bn as int);
        lemma_div_nonincreasing(an as int, bn as int);
    }
    let q: i64 = an / bn;
    if (a < 0) == (b < 0) {
        q
    } else {
        -q
    }
}

/// Conversion to an unsigned 32-bit value, the meaning of a C cast to
/// `uint32_t`: the value modulo two to the thirty-second.
pub fn umod_u32(x: i64) -> (r: u32)
    requires
        -0x4000_0000_0000_0000 <= x <= 0x4000_0000_0000_0000,
    ensures
        r as int == x as int % 0x1_0000_0000,
{
    let q: i64 = sar(x, 0x1_0000_0000);
    proof {
        lemma_fundamental_div_mod(x as int, 0x1_0000_0000);
    }
    (x - q * 0x1_0000_0000) as u32
}

/// Product of two 32-bit-range values, which always fits in 64 bits.
pub fn mul_ww(a: i64, b: i64) -> (r: i64)
    requires
        -0x8000_0000 <= a <= 0x8000_0000,
        -0x8000_0000 <= b <= 0x8000_0000,
    ensures
        r == a * b,
        -0x4000_0000_0000_0000 <= r <= 0x4000_0000_0000_0000,
{
    proof {
        assert(-0x4000_0000_0000_0000 <= (a as int) * (b as int) <= 0x4000_0000_0000_0000)
            by (nonlinear_arith)
            requires
                -0x8000_0000 <= a as int <= 0x8000_0000,
                -0x8000_0000 <= b as int <= 0x8000_0000,
        ;
    }
    a * b
}

/// Product of a wide value and a narrow one, which always fits in 64 bits.
pub fn mul_wn(a: i64, b: i64) -> (r: i64)
    requires
        -0x2000_0000_0000 <= a <= 0x2000_0000_0000,
        -0x2_0000 <= b <= 0x2_0000,
    ensures
        r == a * b,
        -0x4000_0000_0000_0000 <= r <= 0x4000_0000_0000_0000,
{
    proof {
        assert(-0x4000_0000_0000_0000 <= (a as int) * (b as int) <= 0x4000_0000_0000_0000)
            by (nonlinear_arith)
            requires
                -0x2000_0000_0000 <= a as int <= 0x2000_0000_0000,
                -0x2_0000 <= b as int <= 0x2_0000,
        ;
    }
    a * b
}

} // verus!
