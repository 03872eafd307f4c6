//! Small rendering helpers: human-readable byte counts and sparklines.

use vstd::prelude::*;
use vstd::string::*;
use crate::text::{dec, digit, digit_char, extend_str, push_decimal, string_of};

verus! {

// ───────────────────────── byte counts ─────────────────────────

/// 2 to the power `e`.
pub open spec fn pow2(e: nat) -> nat
    decreases e,
{
    if e == 0 {
        1
    } else {
        2 * pow2((e - 1) as nat)
    }
}

/// The exponent `k` of the smallest power of two from `2^k` on by which
/// `b` divides down below `2^53`: the bits of `b` that a 64-bit float
/// cannot hold.
pub open spec fn float_exp(b: nat, k: nat) -> nat
    decreases 64 - k,
{
    if k >= 64 || b / pow2(k) < pow2(53) {
        k
    } else {
        float_exp(b, k + 1)
    }
}

/// `b as f64`: `b` rounded to 53 significant bits, halfway cases to the
/// even neighbour.
pub open spec fn float_of(b: nat) -> nat {
    let u = pow2(float_exp(b, 0));
    let q = b / u;
    let r = b % u;
    if 2 * r > u || (2 * r == u && q % 2 == 1) {
        (b - r + u) as nat
    } else {
        (b - r) as nat
    }
}

/// 1024 to the power `i`, for `i <= 5`.
pub open spec fn kib_pow(i: nat) -> nat {
    if i == 0 {
        1
    } else if i == 1 {
        1024
    } else if i == 2 {
        1048576
    } else if i == 3 {
        1073741824
    } else if i == 4 {
        1099511627776
    } else {
        1125899906842624
    }
}

/// How many times 1024 divides into `v` while staying at least 1,
/// but no more than 5 times (PiB is the largest unit).
pub open spec fn unit_index(v: nat) -> nat {
    if v >= kib_pow(5) {
        5
    } else if v >= kib_pow(4) {
        4
    } else if v >= kib_pow(3) {
        3
    } else if v >= kib_pow(2) {
        2
    } else if v >= kib_pow(1) {
        1
    } else {
        0
    }
}

/// The name of the `i`-th binary unit.
pub open spec fn unit_name(i: nat) -> Seq<char> {
    if i == 0 {
        "B"@
    } else if i == 1 {
        "KiB"@
    } else if i == 2 {
        "MiB"@
    } else if i == 3 {
        "GiB"@
    } else if i == 4 {
        "TiB"@
    } else {
        "PiB"@
    }
}

/// `n / d` rounded to the nearest integer, halfway cases to the even one.
pub open spec fn div_round_even(n: nat, d: nat) -> nat {
    let q = n / d;
    let r = n % d;
    if 2 * r > d || (2 * r == d && q % 2 == 1) {
        q + 1
    } else {
        q
    }
}

/// What `human` shows for `b` bytes: the exact count below 1024 bytes,
/// otherwise the float value of `b` in the largest binary unit up to PiB
/// that keeps it at least 1, with one decimal.
pub open spec fn human_view(b: nat) -> Seq<char> {
    let f = float_of(b);
    let i = unit_index(f);
    if i == 0 {
        dec(b) + " B"@
    } else {
        let t = div_round_even(10 * f, kib_pow(i));
        dec(t / 10) + seq!['.', digit_char(t % 10), ' '] + unit_name(i)
    }
}

proof fn lemma_pow2_53()
    ensures
        pow2(53) == 0x20_0000_0000_0000,
{
    reveal_with_fuel(pow2, 54);
}

proof fn lemma_pow2_pos(a: nat)
    ensures
        pow2(a) >= 1,
    decreases a,
{
    if a > 0 {
        lemma_pow2_pos((a - 1) as nat);
    }
}

proof fn lemma_pow2_lt(a: nat, b: nat)
    requires
        a < b,
    ensures
        2 * pow2(a) <= pow2(b),
    decreases b,
{
    lemma_pow2_pos(a);
    if b > a + 1 {
        lemma_pow2_lt(a, (b - 1) as nat);
        lemma_pow2_pos((b - 1) as nat);
    }
}

proof fn lemma_pow2_facts(a: nat, b: nat)
    ensures
        pow2(a) >= 1,
        a <= b ==> pow2(a) <= pow2(b),
        a < b ==> 2 * pow2(a) <= pow2(b),
        pow2(a + 1) == 2 * pow2(a),
{
    lemma_pow2_pos(a);
    if a < b {
        lemma_pow2_lt(a, b);
    }
}

proof fn lemma_float_exp_from(b: nat, k: nat)
    requires
        b < 0x1_0000_0000_0000_0000,
        k <= 11,
        forall|j: nat| j < k ==> #[trigger] (b / pow2(j)) >= pow2(53),
    ensures
        float_exp(b, k) <= 11,
        b / pow2(float_exp(b, k)) < pow2(53),
        forall|j: nat| j < float_exp(b, k) ==> #[trigger] (b / pow2(j)) >= pow2(53),
    decreases 11 - k,
{
    lemma_pow2_53();
    if b / pow2(k) >= pow2(53) {
        if k == 11 {
            reveal_with_fuel(pow2, 12);
            assert(pow2(11) == 2048);
            vstd::arithmetic::div_mod::lemma_fundamental_div_mod(b as int, 2048);
            vstd::arithmetic::div_mod::lemma_mod_bound(b as int, 2048);
            assert(false);
        }
        assert forall|j: nat| j < k + 1 implies #[trigger] (b / pow2(j)) >= pow2(53) by {
            if j < k {
            }
        }
        lemma_float_exp_from(b, k + 1);
    }
}

/// The exponent that `b as f64` drops: below it every shift of `b` still
/// has more than 53 bits, at it `b` fits in 53 bits.
proof fn lemma_float_exp(b: nat)
    requires
        b < 0x1_0000_0000_0000_0000,
    ensures
        float_exp(b, 0) <= 11,
        b / pow2(float_exp(b, 0)) < pow2(53),
        forall|j: nat| j < float_exp(b, 0) ==> #[trigger] (b / pow2(j)) >= pow2(53),
{
    lemma_float_exp_from(b, 0);
}

/// The rounding of `b` to a double lies between the multiples of its unit
/// around `b`.
proof fn lemma_float_of_bounds(b: nat)
    requires
        b < 0x1_0000_0000_0000_0000,
    ensures
        ({
            let u = pow2(float_exp(b, 0));
            &&& (b / u) * u <= float_of(b) <= (b / u) * u + u
            &&& b / u < pow2(53)
            &&& float_exp(b, 0) > 0 ==> b / u >= 0x10_0000_0000_0000
        }),
{
    let e = float_exp(b, 0);
    let u = pow2(e);
    lemma_float_exp(b);
    lemma_pow2_facts(e, e);
    vstd::arithmetic::div_mod::lemma_fundamental_div_mod(b as int, u as int);
    vstd::arithmetic::div_mod::lemma_mod_bound(b as int, u as int);
    let q = b / u;
    let r = b % u;
    assert(b - r == q * u) by (nonlinear_arith)
        requires
            b == u * q + r,
    ;
    assert(float_of(b) == b - r || float_of(b) == b - r + u);
    if e > 0 {
        let e1 = (e - 1) as nat;
        lemma_pow2_facts(e1, e1);
        assert(e1 + 1 == e);
        assert(b / pow2(e1) >= pow2(53));
        lemma_pow2_53();
        vstd::arithmetic::div_mod::lemma_fundamental_div_mod(b as int, pow2(e1) as int);
        vstd::arithmetic::div_mod::lemma_mod_bound(b as int, pow2(e1) as int);
        assert(b >= pow2(53) * pow2(e1)) by (nonlinear_arith)
            requires
                b == pow2(e1) * (b / pow2(e1)) + b % pow2(e1),
                b / pow2(e1) >= pow2(53),
                b % pow2(e1) >= 0,
                pow2(e1) >= 1,
        ;
        assert(b >= 0x10_0000_0000_0000 * u) by (nonlinear_arith)
            requires
                b >= pow2(53) * pow2(e1),
                pow2(53) == 0x20_0000_0000_0000,
                u == 2 * pow2(e1),
        ;
        assert(q >= 0x10_0000_0000_0000) by (nonlinear_arith)
            requires
                b >= 0x10_0000_0000_0000 * u,
                b == u * q + r,
                r < u,
                u >= 1,
        ;
    }
}

/// Rounding to a double keeps the order of integers.
proof fn lemma_float_of_mono(x: nat, y: nat)
    requires
        x <= y,
        y < 0x1_0000_0000_0000_0000,
    ensures
        float_of(x) <= float_of(y),
{
    let ex = float_exp(x, 0);
    let ey = float_exp(y, 0);
    let ux = pow2(ex);
    let uy = pow2(ey);
    lemma_float_exp(x);
    lemma_float_exp(y);
    lemma_float_of_bounds(x);
    lemma_float_of_bounds(y);
    lemma_pow2_facts(ex, ey);
    lemma_pow2_facts(ey, ex);
    lemma_pow2_53();
    if ex > ey {
        // y fits in 53 bits at ey, so x does too, against the choice of ex
        vstd::arithmetic::div_mod::lemma_div_is_ordered(x as int, y as int, uy as int);
        assert(x / pow2(ey) >= pow2(53));
        assert(false);
    } else if ex == ey {
        let u = ux;
        let qx = x / u;
        let qy = y / u;
        let rx = x % u;
        let ry = y % u;
        vstd::arithmetic::div_mod::lemma_div_is_ordered(x as int, y as int, u as int);
        vstd::arithmetic::div_mod::lemma_fundamental_div_mod(x as int, u as int);
        vstd::arithmetic::div_mod::lemma_fundamental_div_mod(y as int, u as int);
        vstd::arithmetic::div_mod::lemma_mod_bound(x as int, u as int);
        vstd::arithmetic::div_mod::lemma_mod_bound(y as int, u as int);
        if qx < qy {
            assert(float_of(x) <= qx * u + u);
            assert(qx * u + u <= qy * u) by (nonlinear_arith)
                requires
                    qx + 1 <= qy,
                    u >= 1,
            ;
        } else {
            assert(qx == qy);
            assert(rx <= ry) by (nonlinear_arith)
                requires
                    x == u * qx + rx,
                    y == u * qy + ry,
                    qx == qy,
                    x <= y,
            ;
            assert(x - rx == y - ry) by (nonlinear_arith)
                requires
                    x == u * qx + rx,
                    y == u * qy + ry,
                    qx == qy,
            ;
        }
    } else {
        // x is below 2^(53 + ex), y at least 2^(52 + ey)
        assert(float_of(x) <= pow2(53) * ux) by (nonlinear_arith)
            requires
                float_of(x) <= (x / ux) * ux + ux,
                x / ux < pow2(53),
                ux >= 1,
        ;
        assert(float_of(y) >= 0x10_0000_0000_0000 * uy) by (nonlinear_arith)
            requires
                float_of(y) >= (y / uy) * uy,
                y / uy >= 0x10_0000_0000_0000,
                uy >= 1,
        ;
        assert(pow2(53) * ux <= 0x10_0000_0000_0000 * uy) by (nonlinear_arith)
            requires
                2 * ux <= uy,
                pow2(53) == 0x20_0000_0000_0000,
        ;
    }
}

/// The double nearest 1 is 1.
proof fn lemma_float_of_one()
    ensures
        float_of(1) == 1,
{
    lemma_pow2_53();
    assert(pow2(0) == 1);
    assert(float_exp(1, 0) == 0);
}

/// The float rounding of `b`, and the power of two it rounds to.
fn float_value(b: u64) -> (f: u128)
    ensures
        f == float_of(b as nat),
        f <= 2 * (b as nat) + 1,
{
    let mut unit: u128 = 1;
    let mut e: u64 = 0;
    let bb = b as u128;
    while e < 64 && bb / unit >= 0x20_0000_0000_0000
        invariant
            e <= 64,
            unit >= 1,
            unit == pow2(e as nat),
            bb == b,
            float_exp(b as nat, 0) == float_exp(b as nat, e as nat),
            unit <= bb + 1,
        decreases 64 - e,
    {
        proof {
            lemma_pow2_53();
        }
        assert(unit * 2 <= bb + 1) by (nonlinear_arith)
            requires
                bb / unit >= 0x20_0000_0000_0000,
                unit >= 1,
        ;
        unit = unit * 2;
        e = e + 1;
    }
    proof {
        lemma_pow2_53();
        assert(float_exp(b as nat, e as nat) == e as nat);
    }
    let q = bb / unit;
    let r = bb % unit;
    if 2 * r > unit || (2 * r == unit && q % 2 == 1) {
        bb - r + unit
    } else {
        bb - r
    }
}

/// Renders a byte count for humans: `512 B`, `1.5 KiB`, `3.0 GiB`.
pub fn human(b: u64) -> (s: String)
    ensures
        s@ == human_view(b as nat),
{
    let f = float_value(b);
    let (i, d): (u64, u128) = if f >= 1125899906842624 {
        (5, 1125899906842624)
    } else if f >= 1099511627776 {
        (4, 1099511627776)
    } else if f >= 1073741824 {
        (3, 1073741824)
    } else if f >= 1048576 {
        (2, 1048576)
    } else if f >= 1024 {
        (1, 1024)
    } else {
        (0, 1)
    };
    assert(i == unit_index(f as nat) && d == kib_pow(i as nat));
    let mut out: Vec<char> = Vec::new();
    if i == 0 {
        push_decimal(&mut out, b as u128);
        extend_str(&mut out, " B");
        assert(out@ =~= dec(b as nat) + " B"@);
    } else {
        let n = 10 * f;
        let q = n / d;
        let r = n % d;
        let t = if 2 * r > d || (2 * r == d && q % 2 == 1) {
            q + 1
        } else {
            q
        };
        assert(t == div_round_even(10 * f as nat, d as nat));
        push_decimal(&mut out, t / 10);
        out.push('.');
        out.push(digit(t % 10));
        out.push(' ');
        let name: &str = if i == 1 {
            "KiB"
        } else if i == 2 {
            "MiB"
        } else if i == 3 {
            "GiB"
        } else if i == 4 {
            "TiB"
        } else {
            "PiB"
        };
        extend_str(&mut out, name);
        assert(out@ =~= dec((t / 10) as nat) + seq!['.', digit_char((t % 10) as nat), ' ']
            + unit_name(i as nat));
    }
    string_of(&out)
}

// ───────────────────────── sparklines ─────────────────────────

/// The `k`-th of the eight bar glyphs, lowest first.
pub open spec fn glyph(ascii: bool, k: nat) -> char {
    if ascii {
        if k == 0 { '_' } else if k == 1 { '.' } else if k == 2 { '-' } else if k == 3 { ':' }
        else if k == 4 { '=' } else if k == 5 { '+' } else if k == 6 { '*' } else { '#' }
    } else {
        if k == 0 { '▁' } else if k == 1 { '▂' } else if k == 2 { '▃' } else if k == 3 { '▄' }
        else if k == 4 { '▅' } else if k == 5 { '▆' } else if k == 6 { '▇' } else { '█' }
    }
}

/// The largest value of `data`, 0 when it is empty.
pub open spec fn max_value(data: Seq<u64>) -> nat
    decreases data.len(),
{
    if data.len() == 0 {
        0
    } else {
        let m = max_value(data.drop_last());
        if data.last() > m {
            data.last() as nat
        } else {
            m
        }
    }
}

/// The scale of a sparkline: its largest value, at least 1.
pub open spec fn spark_scale(data: Seq<u64>) -> nat {
    if max_value(data) < 1 {
        1
    } else {
        max_value(data)
    }
}

/// The smallest `k` (from `k` on, at most 120) for which `n * 2^k` is at
/// least `2^52 * d`: the scale at which the quotient `n / d` has 53
/// significant bits before the point.
pub open spec fn quot_scale(n: nat, d: nat, k: nat) -> nat
    decreases 120 - k,
{
    if k >= 120 || n * pow2(k) >= pow2(52) * d {
        k
    } else {
        quot_scale(n, d, k + 1)
    }
}

/// The glyph level of `v` on a scale whose top is `top`, as
/// `(v as f64 / top as f64 * 7.0) as usize` computes it: `v` and `top` are
/// rounded to doubles; their quotient is rounded to the double `m / 2^k`
/// (53 significant bits, halfway cases to even); the product of that with
/// 7 is rounded again; the fraction is dropped.
pub open spec fn level(v: nat, top: nat) -> nat {
    let n = float_of(v);
    let d = float_of(top);
    if n == 0 {
        0
    } else {
        let k = quot_scale(n, d, 0);
        let m = div_round_even(n * pow2(k), d);
        float_of(7 * m) / pow2(k)
    }
}

/// A sparkline of the last `width` values of `data`, padded on the left
/// with the lowest glyph to exactly `width` glyphs.
pub open spec fn spark_view(data: Seq<u64>, width: nat, ascii: bool) -> Seq<char> {
    if width == 0 {
        Seq::<char>::empty()
    } else {
        let start = if data.len() > width {
            data.len() - width
        } else {
            0
        };
        let tail = data.skip(start);
        let top = spark_scale(data);
        Seq::new((width - tail.len()) as nat, |i: int| glyph(ascii, 0))
            + tail.map_values(|v: u64| glyph(ascii, level(v as nat, top)))
    }
}

/// A sparkline is always exactly as wide as asked, whatever the data.
pub proof fn lemma_spark_width(data: Seq<u64>, width: nat, ascii: bool)
    ensures
        spark_view(data, width, ascii).len() == width,
{
}

/// The `k`-th glyph.
fn glyph_at(ascii: bool, k: u128) -> (c: char)
    ensures
        c == glyph(ascii, k as nat),
{
    if ascii {
        if k == 0 { '_' } else if k == 1 { '.' } else if k == 2 { '-' } else if k == 3 { ':' }
        else if k == 4 { '=' } else if k == 5 { '+' } else if k == 6 { '*' } else { '#' }
    } else {
        if k == 0 { '▁' } else if k == 1 { '▂' } else if k == 2 { '▃' } else if k == 3 { '▄' }
        else if k == 4 { '▅' } else if k == 5 { '▆' } else if k == 6 { '▇' } else { '█' }
    }
}

proof fn lemma_max_value(data: Seq<u64>, i: int)
    requires
        0 <= i < data.len(),
    ensures
        data[i] <= max_value(data),
    decreases data.len(),
{
    if i < data.len() - 1 {
        lemma_max_value(data.drop_last(), i);
    }
}

/// Fewer than 1024 bytes are shown exactly, in bytes.
pub proof fn lemma_human_small(b: nat)
    requires
        b < 1024,
    ensures
        human_view(b) == dec(b) + " B"@,
{
    lemma_pow2_53();
    assert(pow2(0) == 1);
    assert(b / pow2(0) == b);
    assert(float_exp(b, 0) == 0);
    assert(float_of(b) == b);
}

/// The glyph level of `v` on a scale whose top is `top`.
fn spark_level(v: u64, top: u64) -> (lv: u128)
    requires
        v <= top,
        top >= 1,
    ensures
        lv == level(v as nat, top as nat),
{
    let n = float_value(v);
    let d = float_value(top);
    proof {
        lemma_float_of_mono(v as nat, top as nat);
        lemma_float_of_mono(1, top as nat);
        lemma_float_of_one();
        lemma_pow2_53();
        lemma_pow2_facts(0, 0);
    }
    if n == 0 {
        return 0;
    }
    assert(pow2(52) == 0x10_0000_0000_0000) by {
        lemma_pow2_facts(52, 52);
    }
    let bound: u128 = 0x10_0000_0000_0000 * d;
    let mut t: u128 = n;
    let mut pw: u128 = 1;
    let mut k: u64 = 0;
    while k < 120 && t < bound
        invariant
            1 <= n <= d,
            d <= 2 * (top as nat) + 1,
            bound == pow2(52) * d,
            pow2(52) == 0x10_0000_0000_0000,
            k <= 120,
            pw == pow2(k as nat),
            t == n * pw,
            t < 2 * bound,
            quot_scale(n as nat, d as nat, 0) == quot_scale(n as nat, d as nat, k as nat),
        decreases 120 - k,
    {
        proof {
            lemma_pow2_facts(k as nat, k as nat);
        }
        assert(pw <= t) by (nonlinear_arith)
            requires
                t == n * pw,
                n >= 1,
        ;
        t = 2 * t;
        pw = 2 * pw;
        k = k + 1;
        assert(t == n * pw) by (nonlinear_arith)
            requires
                t == 2 * (n * (pw / 2)),
                pw == 2 * (pw / 2),
        ;
    }
    let q = t / d;
    let r = t % d;
    let m = if 2 * r > d || (2 * r == d && q % 2 == 1) {
        q + 1
    } else {
        q
    };
    assert(q < 0x20_0000_0000_0000) by (nonlinear_arith)
        requires
            q == t / d,
            t < 2 * (0x10_0000_0000_0000 * d),
            d >= 1,
    ;
    let p = float_value((7 * m) as u64);
    proof {
        lemma_pow2_facts(k as nat, k as nat);
    }
    p / pw
}

/// Renders the last `width` values of `data` as a sparkline.
pub fn spark(data: &[u64], width: usize, ascii: bool) -> (s: String)
    ensures
        s@ == spark_view(data@, width as nat, ascii),
{
    if width == 0 {
        return String::new();
    }
    let n = data.len();
    let mut m: u64 = 0;
    let mut i: usize = 0;
    while i < n
        invariant
            i <= n == data@.len(),
            m == max_value(data@.take(i as int)),
        decreases n - i,
    {
        assert(data@.take(i + 1).drop_last() =~= data@.take(i as int));
        if data[i] > m {
            m = data[i];
        }
        i += 1;
    }
    assert(data@.take(n as int) =~= data@);
    let top: u64 = if m < 1 {
        1
    } else {
        m
    };
    let start: usize = if n > width {
        n - width
    } else {
        0
    };
    let ghost tail = data@.skip(start as int);
    let mut out: Vec<char> = Vec::new();
    let pad = width - (n - start);
    let mut k: usize = 0;
    while k < pad
        invariant
            k <= pad,
            out@ == Seq::new(k as nat, |j: int| glyph(ascii, 0)),
        decreases pad - k,
    {
        out.push(glyph_at(ascii, 0));
        assert(out@ =~= Seq::new((k + 1) as nat, |j: int| glyph(ascii, 0)));
        k += 1;
    }
    let ghost padding = out@;
    let mut j: usize = start;
    while j < n
        invariant
            start <= j <= n == data@.len(),
            tail == data@.skip(start as int),
            top == spark_scale(data@),
            top >= 1,
            out@ == padding + tail.take(j - start).map_values(
                |v: u64| glyph(ascii, level(v as nat, top as nat)),
            ),
        decreases n - j,
    {
        let v = data[j];
        proof {
            lemma_max_value(data@, j as int);
        }
        let lv = spark_level(v, top);
        out.push(glyph_at(ascii, lv));
        assert(tail.take(j + 1 - start) =~= tail.take(j - start).push(v));
        assert(out@ =~= padding + tail.take(j + 1 - start).map_values(
            |v: u64| glyph(ascii, level(v as nat, top as nat)),
        ));
        j += 1;
    }
    assert(tail.take(n - start) =~= tail);
    string_of(&out)
}

} // verus!
