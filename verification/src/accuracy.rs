//! How near the numbers that the window shows are to the exact ones.
//!
//! Every number on screen has gone through one or more roundings. Here stands
//! what they leave of it, as bounds on the exact value.

use crate::double::{
    has_shift,
    has_step,
    nearest_integer,
    round_half_even,
    shift_exists,
    shift_is_unique,
    shift_of,
    significand,
    step_is_unique,
};
use crate::numbers::{frame_index, size_text, thousandths, trimmed, whole_secs};
use vstd::arithmetic::power2::*;
use vstd::prelude::*;

verus! {

/// Rounding gives an integer nearest to the fraction, and of two that are
/// equally near the even one.
pub proof fn rounding_is_to_the_nearest(n: nat, d: nat)
    requires
        d > 0,
    ensures
        ({
            let q = round_half_even(n, d);
            &&& -d <= 2 * (q * d - n) <= d
            &&& 2 * (q * d - n) == d || 2 * (q * d - n) == -d ==> q % 2 == 0
        }),
{
    let q = n / d;
    let r = n % d;
    assert(n == q * d + r && r < d) by (nonlinear_arith)
        requires
            d > 0,
            q == n / d,
            r == n % d,
    ;
    assert((q + 1) * d == q * d + d) by (nonlinear_arith);
}

/// The double nearest to a fraction has a significand of 53 bits, and misses
/// the fraction by half a unit of it at most.
pub proof fn a_double_has_53_bits(n: nat, d: nat, k: nat)
    requires
        d > 0,
        0x10_0000_0000_0000 * d <= n * pow2(k) < 0x20_0000_0000_0000 * d,
    ensures
        shift_of(n, d) == k,
        0x10_0000_0000_0000 <= significand(n, d) <= 0x20_0000_0000_0000,
        -d <= 2 * (significand(n, d) * d - n * pow2(k)) <= d,
{
    assert(has_shift(n, d, k));
    shift_is_unique(n, d, k, shift_of(n, d));
    let x = n * pow2(k);
    rounding_is_to_the_nearest(x, d);
    let s = significand(n, d);
    assert(s == round_half_even(x, d));
    assert(0x10_0000_0000_0000 <= s <= 0x20_0000_0000_0000) by (nonlinear_arith)
        requires
            d > 0,
            -d <= 2 * (s * d - x) <= d,
            0x10_0000_0000_0000 * d <= x < 0x20_0000_0000_0000 * d,
    ;
}

/// An integer of 53 bits or more has a number of low bits behind its first 53.
proof fn step_exists(n: nat, j: nat)
    requires
        0x10_0000_0000_0000 * pow2(j) <= n,
    ensures
        exists|i: nat| has_step(n, i),
    decreases n - pow2(j),
{
    if n < 0x20_0000_0000_0000 * pow2(j) {
        assert(has_step(n, j));
    } else {
        lemma_pow2_pos(j);
        lemma_pow2_unfold(j + 1);
        step_exists(n, j + 1);
    }
}

/// The double nearest to an integer is the integer itself below 2^53; from
/// there on it keeps the first 53 bits, rounded.
pub proof fn a_large_integer_keeps_53_bits(n: nat, j: nat)
    ensures
        n < 0x20_0000_0000_0000 ==> nearest_integer(n) == n,
        n >= 0x20_0000_0000_0000 && 0x10_0000_0000_0000 * pow2(j) <= n < 0x20_0000_0000_0000
            * pow2(j) ==> {
            &&& nearest_integer(n) % pow2(j) == 0
            &&& -pow2(j) <= 2 * (nearest_integer(n) - n) <= pow2(j)
        },
{
    if n >= 0x20_0000_0000_0000 && 0x10_0000_0000_0000 * pow2(j) <= n < 0x20_0000_0000_0000
        * pow2(j) {
        assert(has_step(n, j));
        step_is_unique(n, j, choose|i: nat| has_step(n, i));
        lemma_pow2_pos(j);
        let p = pow2(j);
        let q = round_half_even(n, p);
        rounding_is_to_the_nearest(n, p);
        vstd::arithmetic::div_mod::lemma_mod_multiples_basic(q as int, p as int);
    }
}

/// The double nearest to an integer misses it by one part in 2^53 at most.
pub proof fn a_large_integer_is_nearly_kept(n: nat)
    ensures
        -n <= (nearest_integer(n) - n) * 0x20_0000_0000_0000 <= n,
{
    if n >= 0x20_0000_0000_0000 {
        lemma2_to64();
        step_exists(n, 0);
        let j = choose|i: nat| has_step(n, i);
        a_large_integer_keeps_53_bits(n, j);
    }
}

/// The thousandths that are shown of n/d are nearest to it: no other number of
/// thousandths is nearer.
pub proof fn thousandths_are_nearest(n: nat, d: nat)
    requires
        n <= u32::MAX,
        d > 0,
    ensures
        -d <= 2 * (thousandths(n, d) * d - 1000 * n) <= d,
{
    if n > 0 {
        assert(0 < n < 0x20_0000_0000_0000 * d) by (nonlinear_arith)
            requires
                0 < n <= 0xffff_ffff,
                d >= 1,
        ;
        shift_exists(n, d);
        let k = shift_of(n, d);
        let p = pow2(k) as int;
        lemma_pow2_pos(k);
        a_double_has_53_bits(n, d, k);
        let s = significand(n, d) as int;
        let t = thousandths(n, d) as int;
        rounding_is_to_the_nearest(1000 * significand(n, d), pow2(k));
        let e1 = t * p - 1000 * s;
        let e2 = s * d - n * p;
        let x = 2 * (t * d - 1000 * n);
        assert(x * p == d * (2 * e1) + 1000 * (2 * e2)) by (nonlinear_arith)
            requires
                x == 2 * (t * d - 1000 * n),
                e1 == t * p - 1000 * s,
                e2 == s * d - n * p,
        ;
        assert(1000 * d < p) by (nonlinear_arith)
            requires
                0x10_0000_0000_0000 * d <= n * p,
                n <= 0xffff_ffff,
                p > 0,
                d > 0,
        ;
        assert(-d <= x <= d) by (nonlinear_arith)
            requires
                x * p == d * (2 * e1) + 1000 * (2 * e2),
                -p <= 2 * e1 <= p,
                -d <= 2 * e2 <= d,
                1000 * d < p,
                d > 0,
        ;
    }
}

/// A rate is shown as a number of thousandths nearest to it.
pub proof fn a_rate_shows_its_nearest_thousandths(n: nat, d: nat)
    requires
        n <= u32::MAX,
        d > 0,
    ensures
        exists|t: nat|
            crate::numbers::ratio_text(n, d) == #[trigger] trimmed(t) && -d <= 2 * (t * d - 1000
                * n) <= d,
{
    thousandths_are_nearest(n, d);
    let t = thousandths(n, d);
    assert(crate::numbers::ratio_text(n, d) == trimmed(t));
}

/// The seconds that are shown of a time are those that it holds in full, up to
/// ten microseconds around the full second.
pub proof fn any_time_shows_its_seconds(ns: nat)
    requires
        ns <= u64::MAX,
    ensures
        whole_secs(ns) * 1_000_000_000 <= ns + 10_000,
        ns < (whole_secs(ns) + 1) * 1_000_000_000 + 10_000,
{
    let time = nearest_integer(ns);
    a_large_integer_is_nearly_kept(ns);
    let d = 1_000_000_000nat;
    assert(ns - 2048 <= time <= ns + 2048);
    if time > 0 {
        shift_exists(time, d);
        let k = shift_of(time, d);
        let p = pow2(k) as int;
        lemma_pow2_pos(k);
        a_double_has_53_bits(time, d, k);
        let s = significand(time, d) as int;
        let w = s / p;
        assert(w == whole_secs(ns));
        assert(w * p <= s < (w + 1) * p) by (nonlinear_arith)
            requires
                w == s / p,
                p > 0,
        ;
        assert(p > 122_000) by (nonlinear_arith)
            requires
                0x10_0000_0000_0000 * 1_000_000_000 <= time * p,
                time <= 0xffff_ffff_ffff_ffff + 2048,
                p > 0,
        ;
        assert(w * 1_000_000_000 <= time + 4_100) by (nonlinear_arith)
            requires
                w * p <= s,
                2 * (s * 1_000_000_000 - time * p) <= 1_000_000_000,
                p > 122_000,
        ;
        assert(time < (w + 1) * 1_000_000_000 + 4_100) by (nonlinear_arith)
            requires
                s < (w + 1) * p,
                -1_000_000_000 <= 2 * (s * 1_000_000_000 - time * p),
                p > 122_000,
        ;
    }
}

/// The product of two doubles and its rounding, seen from the exact product.
proof fn product_error(u: int, v: int, r: int, w: int, x: int, tr: int, dd: int)
    requires
        u > 0,
        v >= 0,
        r > 0,
        w >= 0,
        -u <= (u - v) * 0x20_0000_0000_0000 <= u,
        -r <= (r - w) * 0x20_0000_0000_0000 <= r,
        u * r == tr * dd,
        dd > 0,
        -tr <= (x - tr) * 0x20_0000_0000_0000 <= tr,
    ensures
        -5 * (v * w) <= (x * dd - v * w) * 0x10_0000_0000_0000 <= 5 * (v * w),
{
    let big = 0x10_0000_0000_0000int;
    assert(u <= 2 * v && r <= 2 * w);
    let a = u - v;
    let b = r - w;
    let c = x - tr;
    let vw = v * w;
    let ur = u * r;
    assert(-v <= a * big <= v);
    assert(-w <= b * big <= w);
    assert(x * dd - vw == c * dd + a * r + v * b) by (nonlinear_arith)
        requires
            a == u - v,
            b == r - w,
            c == x - tr,
            vw == v * w,
            u * r == tr * dd,
    ;
    assert(-2 * vw <= (a * r) * big <= 2 * vw) by (nonlinear_arith)
        requires
            -v <= a * big <= v,
            0 < r <= 2 * w,
            v >= 0,
            vw == v * w,
    ;
    assert(-vw <= (v * b) * big <= vw) by (nonlinear_arith)
        requires
            -w <= b * big <= w,
            v >= 0,
            vw == v * w,
    ;
    assert(0 <= ur <= 4 * vw) by (nonlinear_arith)
        requires
            0 < u <= 2 * v,
            0 < r <= 2 * w,
            ur == u * r,
            vw == v * w,
    ;
    assert(-ur <= (c * dd) * (2 * big) <= ur) by (nonlinear_arith)
        requires
            -tr <= c * (2 * big) <= tr,
            dd > 0,
            ur == tr * dd,
    ;
    assert(((c * dd) * 2) * big == (c * dd) * (2 * big)) by (nonlinear_arith);
    assert((c * dd + a * r + v * b) * big == (c * dd) * big + (a * r) * big + (v * b) * big)
        by (nonlinear_arith);
}

/// The frame number before it is cut off, seen from the time in double
/// precision.
proof fn frame_error(time: nat, n: nat, d: nat, index: int)
    requires
        0 < time <= 0x1_0000_0000_0000_0800,
        0 < n <= u32::MAX,
        d > 0,
        ({
            let second = 1_000_000_000nat;
            let product = nearest_integer(significand(time, second) * significand(n, d));
            let scale = pow2(shift_of(time, second)) * pow2(shift_of(n, d));
            index == ((2 * product + scale) / (2 * scale)) as int
        }),
    ensures
        ({
            let dd = d * 1_000_000_000;
            let exact = time * n;
            &&& (2 * index * dd - 2 * exact) * 0x1_0000_0000_0000 <= 0x1_0000_0000_0000 * dd + exact
            &&& -(0x1_0000_0000_0000 * dd + exact) <= (2 * index * dd - 2 * exact)
                * 0x1_0000_0000_0000
        }),
{
    let second = 1_000_000_000nat;
    shift_exists(time, second);
    assert(0 < n < 0x20_0000_0000_0000 * d) by (nonlinear_arith)
        requires
            0 < n <= 0xffff_ffff,
            d >= 1,
    ;
    shift_exists(n, d);
    let ka = shift_of(time, second);
    let kb = shift_of(n, d);
    let a = pow2(ka) as int;
    let b = pow2(kb) as int;
    lemma_pow2_pos(ka);
    lemma_pow2_pos(kb);
    a_double_has_53_bits(time, second, ka);
    a_double_has_53_bits(n, d, kb);
    let t = significand(time, second) as int;
    let r = significand(n, d) as int;
    let x = nearest_integer((t * r) as nat) as int;
    assert(t * r >= 0) by (nonlinear_arith)
        requires
            t >= 0,
            r >= 0,
    ;
    a_large_integer_is_nearly_kept((t * r) as nat);
    let s = a * b;
    assert(s > 0) by (nonlinear_arith)
        requires
            s == a * b,
            a > 0,
            b > 0,
    ;
    let dd = (d * 1_000_000_000) as int;
    let u = t * 1_000_000_000;
    let v = time * a;
    let rr = r * d;
    let w = n * b;
    let tr = t * r;
    assert(v >= 0) by (nonlinear_arith)
        requires
            v == time * a,
            a > 0,
            time > 0,
    ;
    assert(w >= 0) by (nonlinear_arith)
        requires
            w == n * b,
            b > 0,
            n > 0,
    ;
    assert(rr > 0 && d * 0x10_0000_0000_0000 <= rr) by (nonlinear_arith)
        requires
            rr == r * d,
            r >= 0x10_0000_0000_0000,
            d > 0,
    ;
    assert(u * rr == tr * dd) by (nonlinear_arith)
        requires
            u == t * 1_000_000_000,
            rr == r * d,
            tr == t * r,
            dd == d * 1_000_000_000,
    ;
    product_error(u, v, rr, w, x, tr, dd);
    let vw = v * w;
    let exact = (time * n) as int;
    assert(vw == exact * s) by (nonlinear_arith)
        requires
            vw == v * w,
            v == time * a,
            w == n * b,
            exact == time * n,
            s == a * b,
    ;
    assert(index == (2 * x + s) / (2 * s));
    assert(-s <= 2 * (index * s) - 2 * x <= s) by (nonlinear_arith)
        requires
            index == (2 * x + s) / (2 * s),
            s > 0,
    ;
    let y = 2 * index * dd - 2 * exact;
    let e = 2 * (index * s) - 2 * x;
    let f = x * dd - vw;
    assert(y * s == e * dd + 2 * f) by (nonlinear_arith)
        requires
            y == 2 * index * dd - 2 * exact,
            e == 2 * (index * s) - 2 * x,
            f == x * dd - vw,
            vw == exact * s,
    ;
    let c = 0x1_0000_0000_0000int;
    assert(-(s * dd) <= e * dd <= s * dd) by (nonlinear_arith)
        requires
            -s <= e <= s,
            dd > 0,
    ;
    assert(-vw <= (2 * f) * c <= vw);
    assert((y * s) * c == (e * dd) * c + (2 * f) * c) by (nonlinear_arith)
        requires
            y * s == e * dd + 2 * f,
    ;
    assert((y * c) * s == (y * s) * c) by (nonlinear_arith);
    assert((c * dd + exact) * s == (s * dd) * c + exact * s) by (nonlinear_arith);
    assert(y * c <= c * dd + exact) by (nonlinear_arith)
        requires
            (y * c) * s <= (c * dd + exact) * s,
            s > 0,
    ;
    assert(-(c * dd + exact) <= y * c) by (nonlinear_arith)
        requires
            -((c * dd + exact) * s) <= (y * c) * s,
            s > 0,
    ;
}

/// The frame number of a position is the integer nearest to the position times
/// the rate n/d, up to one part in 2^47 of the product for the roundings on
/// the way. A number beyond 64 bits is cut off.
pub proof fn a_frame_number_is_the_nearest(ns: nat, n: nat, d: nat)
    requires
        ns <= u64::MAX,
        0 < n <= u32::MAX,
        d > 0,
    ensures
        ({
            let index = frame_index(ns, n, d);
            let second = d * 1_000_000_000;
            let slack = 0x8000_0000_0000 * second + ns * n;
            &&& 2 * (index * second - ns * n) * 0x8000_0000_0000 <= slack
            &&& index < i64::MAX ==> -slack <= 2 * (index * second - ns * n) * 0x8000_0000_0000
        }),
{
    let time = nearest_integer(ns);
    a_large_integer_is_nearly_kept(ns);
    assert(ns - 2048 <= time <= ns + 2048);
    let second = (d * 1_000_000_000) as int;
    let exact = (ns * n) as int;
    assert(exact >= 0) by (nonlinear_arith)
        requires
            exact == ns * n,
            ns >= 0,
            n >= 0,
    ;
    if time == 0 {
        assert(ns == 0);
        assert(ns * n == 0) by (nonlinear_arith)
            requires
                ns == 0,
        ;
    } else {
        let whole = 1_000_000_000nat;
        let product = nearest_integer(significand(time, whole) * significand(n, d));
        let scale = pow2(shift_of(time, whole)) * pow2(shift_of(n, d));
        let full = ((2 * product + scale) / (2 * scale)) as int;
        frame_error(time, n, d, full);
        let seen = (time * n) as int;
        let gap = (time - ns) * n;
        assert(gap == seen - exact) by (nonlinear_arith)
            requires
                gap == (time - ns) * n,
                seen == time * n,
                exact == ns * n,
        ;
        assert(-exact <= gap * 0x20_0000_0000_0000 <= exact) by (nonlinear_arith)
            requires
                gap == (time - ns) * n,
                exact == ns * n,
                -ns <= (time - ns) * 0x20_0000_0000_0000 <= ns,
                n >= 0,
        ;
        let fs = full * second;
        assert(2 * full * second == 2 * fs) by (nonlinear_arith)
            requires
                fs == full * second,
        ;
        let index = frame_index(ns, n, d) as int;
        let is = index * second;
        assert(index <= full);
        assert(is <= fs) by (nonlinear_arith)
            requires
                is == index * second,
                fs == full * second,
                index <= full,
                second > 0,
        ;
    }
}

/// Up to 2^53 nanoseconds, some 104 days, no frame number is cut off.
pub proof fn a_frame_number_of_a_short_time_is_exact(ns: nat, n: nat, d: nat)
    requires
        ns < 0x20_0000_0000_0000,
        0 < n <= u32::MAX,
        d > 0,
    ensures
        ({
            let index = frame_index(ns, n, d);
            let second = d * 1_000_000_000;
            let slack = 0x8000_0000_0000 * second + ns * n;
            -slack <= 2 * (index * second - ns * n) * 0x8000_0000_0000 <= slack
        }),
{
    a_frame_number_is_the_nearest(ns, n, d);
    let index = frame_index(ns, n, d) as int;
    let second = (d * 1_000_000_000) as int;
    let exact = (ns * n) as int;
    assert(0 <= exact <= 0x20_0000_0000_0000_0000_0000) by (nonlinear_arith)
        requires
            exact == ns * n,
            0 <= ns < 0x20_0000_0000_0000,
            0 <= n <= 0xffff_ffff,
    ;
    let is = index * second;
    assert(is <= 0x40_0000_0000_0000_0000_0000 + second);
    assert(index < i64::MAX) by (nonlinear_arith)
        requires
            is == index * second,
            is <= 0x40_0000_0000_0000_0000_0000 + second,
            second >= 1_000_000_000,
    ;
}

/// Positions two frames apart show different frame numbers, the later one the
/// greater, at any rate up to a million frames in a second.
pub proof fn frame_numbers_go_up(p: nat, q: nat, n: nat, d: nat)
    requires
        p < q < 0x20_0000_0000_0000,
        0 < n <= u32::MAX,
        d > 0,
        n <= 1_000_000 * d,
        (q - p) * n >= 2 * d * 1_000_000_000,
    ensures
        frame_index(p, n, d) < frame_index(q, n, d),
{
    a_frame_number_of_a_short_time_is_exact(p, n, d);
    a_frame_number_of_a_short_time_is_exact(q, n, d);
    let i = frame_index(p, n, d) as int;
    let j = frame_index(q, n, d) as int;
    let second = (d * 1_000_000_000) as int;
    let pn = (p * n) as int;
    let qn = (q * n) as int;
    let is = i * second;
    let js = j * second;
    assert(qn - pn >= 2 * second) by (nonlinear_arith)
        requires
            (q - p) * n >= 2 * d * 1_000_000_000,
            qn == q * n,
            pn == p * n,
            second == d * 1_000_000_000,
    ;
    assert(pn <= 0x20_0000_0000_0000 * n && qn <= 0x20_0000_0000_0000 * n) by (nonlinear_arith)
        requires
            pn == p * n,
            qn == q * n,
            0 <= p < 0x20_0000_0000_0000,
            0 <= q < 0x20_0000_0000_0000,
            n >= 0,
    ;
    assert(js > is);
    assert(j > i) by (nonlinear_arith)
        requires
            js == j * second,
            is == i * second,
            js > is,
            second > 0,
    ;
}

/// The text of a size in a unit of `unit` bytes, to the nearest tenth.
proof fn tenths_are_nearest(bytes: nat, unit: nat)
    requires
        unit > 0,
        bytes <= u64::MAX,
    ensures
        ({
            let size = nearest_integer(bytes);
            let tenths = round_half_even(10 * size, unit);
            &&& bytes < 0x20_0000_0000_0000 ==> -unit <= 2 * (tenths * unit - 10 * bytes) <= unit
            &&& -(unit + 40_960) <= 2 * (tenths * unit - 10 * bytes) <= unit + 40_960
        }),
{
    let size = nearest_integer(bytes);
    a_large_integer_is_nearly_kept(bytes);
    a_large_integer_keeps_53_bits(bytes, 0);
    rounding_is_to_the_nearest(10 * size, unit);
}

/// What a size shows: the bare count below a kilobyte; else a number of tenths
/// of a unit nearest to it, in the greatest of the units from kilobytes to
/// terabytes that it holds.
pub proof fn a_size_shows_its_nearest_tenth(bytes: nat)
    requires
        bytes < 0x20_0000_0000_0000,
    ensures
        bytes < 1024 ==> size_text(bytes) == crate::text::decimal(bytes) + " B"@,
        forall|unit: nat, name: Seq<char>|
            {
                ||| unit == 1024 && name == "KB"@ && 1024 <= bytes < 1024 * unit
                ||| unit == 1024 * 1024 && name == "MB"@ && unit <= bytes < 1024 * unit
                ||| unit == 1024 * 1024 * 1024 && name == "GB"@ && unit <= bytes < 1024 * unit
                ||| unit == 1024 * 1024 * 1024 * 1024 && name == "TB"@ && unit <= bytes
            } ==> #[trigger] shows_tenths(bytes, unit, name, unit),
{
    a_large_integer_keeps_53_bits(bytes, 0);
    assert forall|unit: nat, name: Seq<char>|
        {
            ||| unit == 1024 && name == "KB"@ && 1024 <= bytes < 1024 * unit
            ||| unit == 1024 * 1024 && name == "MB"@ && unit <= bytes < 1024 * unit
            ||| unit == 1024 * 1024 * 1024 && name == "GB"@ && unit <= bytes < 1024 * unit
            ||| unit == 1024 * 1024 * 1024 * 1024 && name == "TB"@ && unit <= bytes
        } implies #[trigger] shows_tenths(bytes, unit, name, unit) by {
        tenths_are_nearest(bytes, unit);
        let tenths = round_half_even(10 * bytes, unit);
        assert(size_text(bytes) == tenths_text(tenths, name));
    }
}

/// A size of 2^53 bytes or more is shown in terabytes, and misses by what the
/// double nearest to it misses.
pub proof fn a_huge_size_shows_terabytes(bytes: nat)
    requires
        0x20_0000_0000_0000 <= bytes <= u64::MAX,
    ensures
        shows_tenths(bytes, 0x100_0000_0000, "TB"@, 0x100_0000_0000 + 40_960),
{
    a_large_integer_is_nearly_kept(bytes);
    tenths_are_nearest(bytes, 0x100_0000_0000);
    let tenths = round_half_even(10 * nearest_integer(bytes), 0x100_0000_0000);
    assert(size_text(bytes) == tenths_text(tenths, "TB"@));
}

/// A number of tenths with one decimal, and a name behind it.
pub open spec fn tenths_text(tenths: nat, name: Seq<char>) -> Seq<char> {
    crate::text::decimal(tenths / 10) + "."@ + crate::text::decimal(tenths % 10) + " "@ + name
}

/// Whether the text of `bytes` is a number of tenths of `unit` that lies within
/// half of `slack` bytes of ten times as many.
pub open spec fn shows_tenths(bytes: nat, unit: nat, name: Seq<char>, slack: nat) -> bool {
    exists|tenths: nat|
        size_text(bytes) == #[trigger] tenths_text(tenths, name) && -slack <= 2 * (tenths * unit
            - 10 * bytes) <= slack
}

} // verus!
