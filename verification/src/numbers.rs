//! The numbers that the window shows: rates, sizes, times and frame counts.

use crate::double::{nearest_int, nearest_ratio, round_ratio, Double};
use crate::text::{decimal_string, padded_string, push_decimal, trim_end_char};
use vstd::prelude::*;
use vstd::string::*;

verus! {

/// A thousand million nanoseconds make a second.
pub const NANOS_PER_SEC: u64 = 1_000_000_000;

/// The absolute value of `x`.
pub open spec fn magnitude(x: int) -> nat {
    if x < 0 {
        (-x) as nat
    } else {
        x as nat
    }
}

/// The thousandths nearest to the double nearest to `n / d`.
pub open spec fn thousandths(n: nat, d: nat) -> nat {
    if n == 0 {
        0
    } else {
        crate::double::round_half_even(
            1000 * crate::double::significand(n, d),
            vstd::arithmetic::power2::pow2(crate::double::shift_of(n, d)),
        )
    }
}

/// `t` thousandths, written with three decimals.
pub open spec fn three_decimals(t: nat) -> Seq<char> {
    crate::text::decimal(t / 1000) + seq![
        '.',
        crate::text::digit(t / 100 % 10),
        crate::text::digit(t / 10 % 10),
        crate::text::digit(t % 10),
    ]
}

/// `t` thousandths with three decimals, less trailing zeros, less a trailing
/// point.
pub open spec fn trimmed(t: nat) -> Seq<char> {
    crate::text::trim_end(crate::text::trim_end(three_decimals(t), '0'), '.')
}

/// The text of the quotient `n / d` of doubles with at most three decimals.
pub open spec fn ratio_text(n: nat, d: nat) -> Seq<char> {
    trimmed(thousandths(n, d))
}

/// The absolute value of `x`.
pub fn magnitude_of(x: i32) -> (m: u64)
    ensures
        m == magnitude(x as int),
        m <= 0x8000_0000,
{
    let wide: i64 = x as i64;
    if wide < 0 {
        (-wide) as u64
    } else {
        wide as u64
    }
}

/// Formats `n / d` without trailing zeros: 24000 over 1001 gives "23.976",
/// 48000 over 1000 gives "48".
pub fn trim(n: u32, d: u32) -> (text: String)
    requires
        d > 0,
    ensures
        text@ == ratio_text(n as nat, d as nat),
{
    let x = nearest_ratio(n as u128, d as u128);
    let t: u64 = if n == 0 {
        0
    } else {
        let nearest: u128 = round_ratio(1000 * x.mant, x.scale);
        proof {
            let scale = x.scale as int;
            let mant = x.mant as int;
            assert(1000 * mant / scale <= 1000 * (n + 1)) by (nonlinear_arith)
                requires
                    scale >= 1,
                    mant <= n * scale + 1,
                    n >= 0,
            ;
        }
        nearest as u64
    };
    let mut out = String::new();
    push_decimal(&mut out, t / 1000);
    out.append(".");
    push_decimal(&mut out, t / 100 % 10);
    push_decimal(&mut out, t / 10 % 10);
    push_decimal(&mut out, t % 10);
    proof {
        reveal_strlit(".");
        assert(out@ =~= three_decimals(t as nat));
    }
    let zeros_gone = trim_end_char(out.as_str(), '0');
    trim_end_char(zeros_gone.as_str(), '.')
}

/// A number with at most three decimals is shown without trailing zeros, and
/// without a point where no decimal is left.
pub proof fn trailing_zeros_are_dropped(t: nat)
    ensures
        trimmed(t) == crate::text::decimal(t / 1000) + (if t % 1000 == 0 {
            Seq::<char>::empty()
        } else if t % 100 == 0 {
            seq!['.', crate::text::digit(t / 100 % 10)]
        } else if t % 10 == 0 {
            seq!['.', crate::text::digit(t / 100 % 10), crate::text::digit(t / 10 % 10)]
        } else {
            seq![
                '.',
                crate::text::digit(t / 100 % 10),
                crate::text::digit(t / 10 % 10),
                crate::text::digit(t % 10),
            ]
        }),
{
    let whole = crate::text::decimal(t / 1000);
    let a = crate::text::digit(t / 100 % 10);
    let b = crate::text::digit(t / 10 % 10);
    let c = crate::text::digit(t % 10);
    let s0 = whole.push('.');
    let s1 = s0.push(a);
    let s2 = s1.push(b);
    assert(three_decimals(t) =~= s2.push(c));
    crate::text::trim_end_of_push(s2, c, '0');
    crate::text::trim_end_of_push(s1, b, '0');
    crate::text::trim_end_of_push(s0, a, '0');
    crate::text::trim_end_of_push(whole, '.', '0');
    crate::text::trim_end_of_push(s2, c, '.');
    crate::text::trim_end_of_push(s1, b, '.');
    crate::text::trim_end_of_push(s0, a, '.');
    crate::text::trim_end_of_push(whole, '.', '.');
    crate::text::decimal_ends_in_digit(t / 1000);
    assert(whole + Seq::<char>::empty() =~= whole);
    assert(s1 =~= whole + seq!['.', a]);
    assert(s2 =~= whole + seq!['.', a, b]);
}

/// The text of the quotient of doubles `numer / denom`, with at most three
/// decimals.
pub open spec fn fps_text(numer: int, denom: int) -> Seq<char> {
    if denom == 0 {
        if numer == 0 {
            "NaN"@
        } else if numer > 0 {
            "inf"@
        } else {
            "-inf"@
        }
    } else if (numer < 0) != (denom < 0) {
        "-"@ + ratio_text(magnitude(numer), magnitude(denom))
    } else {
        ratio_text(magnitude(numer), magnitude(denom))
    }
}

/// Formats the frame rate `numer / denom` without trailing zeros.
pub fn trim_fps(numer: i32, denom: i32) -> (text: String)
    ensures
        text@ == fps_text(numer as int, denom as int),
{
    if denom == 0 {
        return if numer == 0 {
            "NaN".to_owned()
        } else if numer > 0 {
            "inf".to_owned()
        } else {
            "-inf".to_owned()
        };
    }
    let quotient = trim(magnitude_of(numer) as u32, magnitude_of(denom) as u32);
    if (numer < 0) != (denom < 0) {
        let mut out = "-".to_owned();
        out.append(quotient.as_str());
        out
    } else {
        quotient
    }
}

/// The bytes in one unit: 1024 to the power of `unit`.
pub open spec fn unit_bytes(unit: nat) -> nat {
    if unit == 0 {
        1
    } else if unit == 1 {
        0x400
    } else if unit == 2 {
        0x10_0000
    } else if unit == 3 {
        0x4000_0000
    } else {
        0x100_0000_0000
    }
}

/// The greatest unit, of bytes up to terabytes, that `size` holds once or more.
pub open spec fn unit_of(size: nat) -> nat {
    if size < unit_bytes(1) {
        0
    } else if size < unit_bytes(2) {
        1
    } else if size < unit_bytes(3) {
        2
    } else if size < unit_bytes(4) {
        3
    } else {
        4
    }
}

/// The name of a unit.
pub open spec fn unit_name(unit: nat) -> Seq<char> {
    if unit == 0 {
        "B"@
    } else if unit == 1 {
        "KB"@
    } else if unit == 2 {
        "MB"@
    } else if unit == 3 {
        "GB"@
    } else {
        "TB"@
    }
}

/// A size in bytes for the eye: the bare count below 1024, else the double
/// nearest to it in the greatest unit that fits, to one decimal.
pub open spec fn size_text(bytes: nat) -> Seq<char> {
    let size = crate::double::nearest_integer(bytes);
    let unit = unit_of(size);
    if unit == 0 {
        crate::text::decimal(bytes) + " B"@
    } else {
        let tenths = crate::double::round_half_even(10 * size, unit_bytes(unit));
        crate::text::decimal(tenths / 10) + "."@ + crate::text::decimal(tenths % 10) + " "@
            + unit_name(unit)
    }
}

/// The name of a unit.
fn unit_label(unit: u32) -> (name: &'static str)
    requires
        unit <= 4,
    ensures
        name@ == unit_name(unit as nat),
{
    if unit == 0 {
        "B"
    } else if unit == 1 {
        "KB"
    } else if unit == 2 {
        "MB"
    } else if unit == 3 {
        "GB"
    } else {
        "TB"
    }
}

/// A file size for the eye, such as "1.5 KB".
pub fn human_size(bytes: u64) -> (text: String)
    ensures
        text@ == size_text(bytes as nat),
{
    let size: u128 = nearest_int(bytes as u128);
    let mut unit: u32 = 0;
    let mut scale: u128 = 1;
    while unit < 4 && size >= 1024 * scale
        invariant
            unit <= 4,
            scale == unit_bytes(unit as nat),
            unit > 0 ==> size >= scale,
        decreases 4 - unit,
    {
        scale = 1024 * scale;
        unit = unit + 1;
    }
    assert(unit == unit_of(size as nat));
    if unit == 0 {
        let mut out = decimal_string(bytes);
        out.append(" B");
        out
    } else {
        let tenths: u128 = round_ratio(10 * size, scale);
        assert(10 * size / scale as int <= 10 * size / 0x400int) by (nonlinear_arith)
            requires
                scale >= 0x400,
                size >= 0,
        ;
        let mut out = decimal_string((tenths / 10) as u64);
        out.append(".");
        push_decimal(&mut out, (tenths % 10) as u64);
        out.append(" ");
        out.append(unit_label(unit));
        out
    }
}

/// A file size for the eye in the tooltip of a tab.
pub fn human_bytes(bytes: u64) -> (text: String)
    ensures
        text@ == size_text(bytes as nat),
{
    human_size(bytes)
}

/// The seconds that the double nearest to a time in seconds holds in full.
pub open spec fn whole_secs(ns: nat) -> nat {
    let n = crate::double::nearest_integer(ns);
    let d = NANOS_PER_SEC as nat;
    if n == 0 {
        0
    } else {
        crate::double::significand(n, d)
            / vstd::arithmetic::power2::pow2(crate::double::shift_of(n, d))
    }
}

/// `t` seconds as hours, minutes and seconds, or as minutes and seconds where
/// no hour is full.
pub open spec fn clock_text(t: nat) -> Seq<char> {
    let h = t / 3600;
    let m = t % 3600 / 60;
    let s = t % 60;
    if h > 0 {
        crate::text::decimal(h) + ":"@ + crate::text::padded(m) + ":"@ + crate::text::padded(s)
    } else {
        crate::text::decimal(m) + ":"@ + crate::text::padded(s)
    }
}

/// A time in nanoseconds as seconds in double precision.
fn seconds(ns: u64) -> (x: Double)
    ensures
        x.is_ratio(crate::double::nearest_integer(ns as nat), NANOS_PER_SEC as nat),
        x.mant <= crate::double::SIGNIFICAND_END,
        crate::double::nearest_integer(ns as nat) > 0 ==> x.mant > 0,
        0 < x.scale <= 0x20_0000_0000_0000_0000_0000,
{
    let n: u128 = nearest_int(ns as u128);
    nearest_ratio(n, NANOS_PER_SEC as u128)
}

/// A time in nanoseconds as "m:ss" or "h:mm:ss".
pub fn fmt_time(ns: u64) -> (text: String)
    ensures
        text@ == clock_text(whole_secs(ns as nat)),
{
    let x = seconds(ns);
    let t: u64 = (x.mant / x.scale) as u64;
    let h: u64 = t / 3600;
    let m: u64 = t % 3600 / 60;
    let s: u64 = t % 60;
    if h > 0 {
        let mut out = decimal_string(h);
        out.append(":");
        out.append(padded_string(m).as_str());
        out.append(":");
        out.append(padded_string(s).as_str());
        out
    } else {
        let mut out = decimal_string(m);
        out.append(":");
        out.append(padded_string(s).as_str());
        out
    }
}

/// The number of the frame that is shown `ns` after the start at the rate
/// `n / d`: the product of the two doubles, rounded to the nearest integer and
/// cut off at the greatest 64-bit integer.
pub open spec fn frame_index(ns: nat, n: nat, d: nat) -> nat {
    let time = crate::double::nearest_integer(ns);
    let second = NANOS_PER_SEC as nat;
    if time == 0 {
        0
    } else {
        let product = crate::double::nearest_integer(
            crate::double::significand(time, second) * crate::double::significand(n, d),
        );
        let scale = vstd::arithmetic::power2::pow2(crate::double::shift_of(time, second))
            * vstd::arithmetic::power2::pow2(crate::double::shift_of(n, d));
        let index = (2 * product + scale) / (2 * scale);
        if index > i64::MAX {
            i64::MAX as nat
        } else {
            index
        }
    }
}

/// The number of the frame that is shown `ns` after the start at the rate
/// `n / d`.
pub fn frame_number(ns: u64, n: u32, d: u32) -> (index: u64)
    requires
        n > 0,
        d > 0,
    ensures
        index == frame_index(ns as nat, n as nat, d as nat),
{
    let time = seconds(ns);
    let rate = nearest_ratio(n as u128, d as u128);
    if time.mant == 0 {
        return 0;
    }
    assert(time.mant * rate.mant <= 0x400_0000_0000_0000_0000_0000_0000) by (nonlinear_arith)
        requires
            0 <= time.mant <= 0x20_0000_0000_0000,
            0 <= rate.mant <= 0x20_0000_0000_0000,
    ;
    let product: u128 = nearest_int(time.mant * rate.mant);
    let limit: u128 = 0x4000_0000_0000_0000_0000_0000_0000;
    let ghost scale = time.scale * rate.scale;
    if time.scale > limit / rate.scale {
        proof {
            assert(scale > limit) by (nonlinear_arith)
                requires
                    scale == time.scale * rate.scale,
                    time.scale > limit / rate.scale,
                    rate.scale > 0,
            ;
            assert((2 * product + scale) / (2 * scale) == 0) by (nonlinear_arith)
                requires
                    0 <= 2 * product < scale,
            ;
        }
        return 0;
    }
    assert(scale <= limit) by (nonlinear_arith)
        requires
            scale == time.scale * rate.scale,
            time.scale <= limit / rate.scale,
            rate.scale > 0,
    ;
    assert(scale > 0) by (nonlinear_arith)
        requires
            scale == time.scale * rate.scale,
            time.scale > 0,
            rate.scale > 0,
    ;
    let whole: u128 = time.scale * rate.scale;
    let index: u128 = (2 * product + whole) / (2 * whole);
    if index > i64::MAX as u128 {
        i64::MAX as u64
    } else {
        index as u64
    }
}

/// Below a count of 2^53 nanoseconds, some 104 days, a time is shown with the
/// seconds that it holds in full.
pub proof fn short_times_show_full_seconds(ns: nat)
    requires
        ns < crate::double::SIGNIFICAND_END,
    ensures
        whole_secs(ns) == ns / NANOS_PER_SEC as nat,
{
    let d = NANOS_PER_SEC as nat;
    if ns > 0 {
        crate::double::shift_exists(ns, d);
        let k = crate::double::shift_of(ns, d);
        let scale = vstd::arithmetic::power2::pow2(k) as int;
        let shifted = ns * scale;
        let m = crate::double::significand(ns, d) as int;
        let full = ns / d;
        let half = 500_000_000int;
        vstd::arithmetic::power2::lemma_pow2_pos(k);
        assert(scale > half) by (nonlinear_arith)
            requires
                0x10_0000_0000_0000 * 1_000_000_000 <= ns * scale,
                ns < 0x20_0000_0000_0000,
                scale > 0,
                half == 500_000_000,
        ;
        let q = shifted / (d as int);
        let r = shifted % (d as int);
        assert(shifted == d * q + r);
        assert(full * scale <= q) by (nonlinear_arith)
            requires
                full == ns / d,
                shifted == ns * scale,
                q == shifted / (d as int),
                d == 1_000_000_000,
                scale > 0,
        ;
        assert(d * m <= shifted + half);
        let bound = (full + 1) * scale;
        assert(ns * scale <= bound * d - scale) by (nonlinear_arith)
            requires
                ns <= (full + 1) * d - 1,
                bound == (full + 1) * scale,
                scale > 0,
        ;
        assert(m < bound);
        assert(m / scale == full) by (nonlinear_arith)
            requires
                full * scale <= m < (full + 1) * scale,
                scale > 0,
        ;
    }
}

} // verus!
