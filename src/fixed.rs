use vstd::prelude::*;

verus! {

/// Number of raw units in one: values carry 20 fractional bits.
pub const ONE_RAW: i64 = 1048576;

/// Largest magnitude, in raw units, that arithmetic results saturate to (2^50).
pub const LIMIT_RAW: i64 = 1125899906842624;

/// Clamps an exact result into the representable range.
pub open spec fn clamp_raw(v: int) -> int {
    if v > LIMIT_RAW {
        LIMIT_RAW as int
    } else if v < -LIMIT_RAW {
        -LIMIT_RAW
    } else {
        v
    }
}

pub open spec fn abs_int(v: int) -> int {
    if v < 0 {
        -v
    } else {
        v
    }
}

/// Integer quotient rounded toward zero, as machine division does.
pub open spec fn div_trunc(n: int, d: int) -> int {
    let q = abs_int(n) / abs_int(d);
    if (n < 0) != (d < 0) {
        -q
    } else {
        q
    }
}

/// A real number in binary fixed point: `raw / ONE_RAW`.
///
/// Every operation is total: results are clamped to `[-LIMIT_RAW, LIMIT_RAW]`,
/// division by zero gives zero, and the square root of a negative number is zero.
#[derive(Clone, Copy, Debug, PartialEq, Eq, Structural)]
pub struct Fixed {
    pub raw: i64,
}

pub open spec fn fx(v: int) -> Fixed {
    Fixed { raw: v as i64 }
}

pub open spec fn fx_add(a: Fixed, b: Fixed) -> Fixed {
    fx(clamp_raw(a.raw + b.raw))
}

pub open spec fn fx_sub(a: Fixed, b: Fixed) -> Fixed {
    fx(clamp_raw(a.raw - b.raw))
}

pub open spec fn fx_mul(a: Fixed, b: Fixed) -> Fixed {
    fx(clamp_raw(div_trunc(a.raw * b.raw, ONE_RAW as int)))
}

pub open spec fn fx_div(a: Fixed, b: Fixed) -> Fixed {
    if b.raw == 0 {
        fx(0)
    } else {
        fx(clamp_raw(div_trunc(a.raw * ONE_RAW, b.raw as int)))
    }
}

pub open spec fn fx_abs(a: Fixed) -> Fixed {
    fx(clamp_raw(abs_int(a.raw as int)))
}

pub open spec fn fx_max(a: Fixed, b: Fixed) -> Fixed {
    if a.raw < b.raw {
        b
    } else {
        a
    }
}

pub open spec fn is_isqrt(r: int, n: int) -> bool {
    0 <= r && r * r <= n < (r + 1) * (r + 1)
}

/// The integer square root, rounded down.
pub open spec fn isqrt(n: int) -> int {
    if n <= 0 {
        0
    } else {
        choose|r: int| is_isqrt(r, n)
    }
}

pub open spec fn fx_sqrt(a: Fixed) -> Fixed {
    fx(isqrt(a.raw * ONE_RAW))
}

/// `a` raised to the natural power `n`, one rounded product at a time.
pub open spec fn fx_pow(a: Fixed, n: nat) -> Fixed
    decreases n,
{
    if n == 0 {
        fx(ONE_RAW as int)
    } else {
        fx_mul(fx_pow(a, (n - 1) as nat), a)
    }
}

pub open spec fn clamp_byte(v: int) -> int {
    if v < 0 {
        0
    } else if v > 255 {
        255
    } else {
        v
    }
}

/// A colour channel in `[0, 1]` scaled to a byte: `255 * c`, truncated and clamped.
pub open spec fn channel_byte(c: Fixed) -> int {
    clamp_byte(div_trunc(c.raw * 255, ONE_RAW as int))
}

proof fn lemma_isqrt_unique(r1: int, r2: int, n: int)
    requires
        is_isqrt(r1, n),
        is_isqrt(r2, n),
    ensures
        r1 == r2,
{
    if r1 < r2 {
        assert((r1 + 1) * (r1 + 1) <= r2 * r2) by (nonlinear_arith)
            requires
                0 <= r1 + 1 <= r2,
        ;
    } else if r2 < r1 {
        assert((r2 + 1) * (r2 + 1) <= r1 * r1) by (nonlinear_arith)
            requires
                0 <= r2 + 1 <= r1,
        ;
    }
}

/// The integer square root of `n`, rounded down.
pub fn isqrt_wide(n: u128) -> (r: u128)
    ensures
        r == isqrt(n as int),
        r * r <= n < (r + 1) * (r + 1),
{
    let mut lo: u128 = 0;
    let mut hi: u128 = 0x1_0000_0000_0000_0000;
    assert(n < hi * hi) by (nonlinear_arith)
        requires
            n < 0x1_0000_0000_0000_0000_0000_0000_0000_0000,
            hi == 0x1_0000_0000_0000_0000,
    ;
    while hi - lo > 1
        invariant
            lo < hi <= 0x1_0000_0000_0000_0000,
            lo * lo <= n < hi * hi,
        decreases hi - lo,
    {
        let mid: u128 = lo + (hi - lo) / 2;
        assert(mid * mid < 0x1_0000_0000_0000_0000_0000_0000_0000_0000) by (nonlinear_arith)
            requires
                mid < 0x1_0000_0000_0000_0000,
        ;
        if mid * mid <= n {
            lo = mid;
        } else {
            hi = mid;
        }
    }
    proof {
        assert(is_isqrt(lo as int, n as int));
        if n > 0 {
            lemma_isqrt_unique(lo as int, isqrt(n as int), n as int);
        } else {
            assert(lo == 0) by (nonlinear_arith)
                requires
                    lo * lo <= 0,
                    lo >= 0,
            ;
        }
    }
    lo
}

pub(crate) fn clamp_wide(v: i128) -> (r: i64)
    ensures
        r == clamp_raw(v as int),
{
    if v > LIMIT_RAW as i128 {
        LIMIT_RAW
    } else if v < -(LIMIT_RAW as i128) {
        -LIMIT_RAW
    } else {
        v as i64
    }
}

pub(crate) fn div_trunc_wide(n: i128, d: i128) -> (r: i128)
    requires
        d != 0,
        n > i128::MIN,
        d > i128::MIN,
    ensures
        r == div_trunc(n as int, d as int),
        abs_int(r as int) <= abs_int(n as int),
{
    let un: u128 = if n < 0 {
        (-n) as u128
    } else {
        n as u128
    };
    let ud: u128 = if d < 0 {
        (-d) as u128
    } else {
        d as u128
    };
    let q: u128 = un / ud;
    assert(q <= un) by (nonlinear_arith)
        requires
            ud >= 1,
            q == un / ud,
    ;
    if (n < 0) != (d < 0) {
        -(q as i128)
    } else {
        q as i128
    }
}

fn wide_mul(a: i64, b: i64) -> (r: i128)
    ensures
        r == a * b,
        r > i128::MIN,
{
    assert(-0x4000_0000_0000_0000_0000_0000_0000_0000 <= a * b <= 0x4000_0000_0000_0000_0000_0000_0000_0000)
        by (nonlinear_arith)
        requires
            -0x8000_0000_0000_0000 <= a < 0x8000_0000_0000_0000,
            -0x8000_0000_0000_0000 <= b < 0x8000_0000_0000_0000,
    ;
    a as i128 * b as i128
}

impl Fixed {
    pub fn from_raw(raw: i64) -> (r: Fixed)
        ensures
            r.raw == raw,
    {
        Fixed { raw }
    }

    /// The whole number `n`, clamped into range.
    pub fn from_int(n: i64) -> (r: Fixed)
        ensures
            r == fx(clamp_raw(n * ONE_RAW)),
    {
        Fixed { raw: clamp_wide(wide_mul(n, ONE_RAW)) }
    }

    pub fn add(self, o: Fixed) -> (r: Fixed)
        ensures
            r == fx_add(self, o),
    {
        Fixed { raw: clamp_wide(self.raw as i128 + o.raw as i128) }
    }

    pub fn sub(self, o: Fixed) -> (r: Fixed)
        ensures
            r == fx_sub(self, o),
    {
        Fixed { raw: clamp_wide(self.raw as i128 - o.raw as i128) }
    }

    pub fn mul(self, o: Fixed) -> (r: Fixed)
        ensures
            r == fx_mul(self, o),
    {
        let p: i128 = wide_mul(self.raw, o.raw);
        Fixed { raw: clamp_wide(div_trunc_wide(p, ONE_RAW as i128)) }
    }

    pub fn div(self, o: Fixed) -> (r: Fixed)
        ensures
            r == fx_div(self, o),
    {
        if o.raw == 0 {
            Fixed { raw: 0 }
        } else {
            let n: i128 = wide_mul(self.raw, ONE_RAW);
            Fixed { raw: clamp_wide(div_trunc_wide(n, o.raw as i128)) }
        }
    }

    pub fn abs(self) -> (r: Fixed)
        ensures
            r == fx_abs(self),
    {
        let v: i128 = if self.raw < 0 {
            -(self.raw as i128)
        } else {
            self.raw as i128
        };
        Fixed { raw: clamp_wide(v) }
    }

    pub fn max(self, o: Fixed) -> (r: Fixed)
        ensures
            r == fx_max(self, o),
    {
        if self.raw < o.raw {
            o
        } else {
            self
        }
    }

    /// The square root, rounded down to the nearest raw unit; zero for `self <= 0`.
    pub fn sqrt(self) -> (r: Fixed)
        ensures
            r == fx_sqrt(self),
    {
        if self.raw <= 0 {
            return Fixed { raw: 0 };
        }
        let n: u128 = self.raw as u128 * ONE_RAW as u128;
        let root = isqrt_wide(n);
        assert(root * root < 0x400_0000_0000 * 0x400_0000_0000) by (nonlinear_arith)
            requires
                root * root <= n,
                n == self.raw as int * ONE_RAW as int,
                self.raw < 0x8000_0000_0000_0000,
        ;
        if root >= 0x400_0000_0000 {
            assert(root * root >= 0x400_0000_0000 * 0x400_0000_0000) by (nonlinear_arith)
                requires
                    root >= 0x400_0000_0000,
            ;
        }
        Fixed { raw: root as i64 }
    }

    /// `self` raised to the natural power `n`.
    pub fn pow(self, n: u32) -> (r: Fixed)
        ensures
            r == fx_pow(self, n as nat),
    {
        let mut acc = Fixed { raw: ONE_RAW };
        let mut i: u32 = 0;
        while i < n
            invariant
                i <= n,
                acc == fx_pow(self, i as nat),
            decreases n - i,
        {
            acc = acc.mul(self);
            i = i + 1;
        }
        acc
    }

    /// The channel value scaled by 255, truncated and clamped to a byte.
    pub fn to_channel(self) -> (r: u8)
        ensures
            r == channel_byte(self),
    {
        let v: i128 = div_trunc_wide(wide_mul(self.raw, 255), ONE_RAW as i128);
        if v < 0 {
            0
        } else if v > 255 {
            255
        } else {
            v as u8
        }
    }
}

} // verus!
