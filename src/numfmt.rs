//! Decimal text for counters and sizes, with exact rounding.

use vstd::prelude::*;
use vstd::string::StringExecFns;
use vstd::arithmetic::div_mod::lemma_fundamental_div_mod_converse;

verus! {

/// The text of one decimal digit.
pub open spec fn digit_text(d: nat) -> Seq<char> {
    if d == 0 { "0"@ }
    else if d == 1 { "1"@ }
    else if d == 2 { "2"@ }
    else if d == 3 { "3"@ }
    else if d == 4 { "4"@ }
    else if d == 5 { "5"@ }
    else if d == 6 { "6"@ }
    else if d == 7 { "7"@ }
    else if d == 8 { "8"@ }
    else { "9"@ }
}

/// The decimal text of `n`, without leading zeros.
pub open spec fn decimal(n: nat) -> Seq<char>
    decreases n,
{
    if n < 10 { digit_text(n) } else { decimal(n / 10) + digit_text(n % 10) }
}

/// `num / den` rounded to the nearest integer, ties to the even one.
pub open spec fn round_div(num: nat, den: nat) -> nat
    recommends
        den > 0,
{
    let q = num / den;
    let r = num % den;
    if 2 * r > den || (2 * r == den && q % 2 == 1) { q + 1 } else { q }
}

pub open spec fn pow10(places: nat) -> nat {
    if places == 1 { 10 } else { 100 }
}

/// The digits after the point: `places` of them, zero-padded.
pub open spec fn fraction_text(f: nat, places: nat) -> Seq<char> {
    if places == 1 { digit_text(f % 10) } else { digit_text((f / 10) % 10) + digit_text(f % 10) }
}

/// `n / den` written with `places` (one or two) digits after the point,
/// rounded to the nearest such value, ties to even.
pub open spec fn fixed_text(n: nat, den: nat, places: nat) -> Seq<char> {
    let t = round_div(n * pow10(places), den);
    decimal(t / pow10(places)) + "."@ + fraction_text(t % pow10(places), places)
}

fn digit_str(d: u64) -> (r: &'static str)
    requires
        d < 10,
    ensures
        r@ == digit_text(d as nat),
{
    if d == 0 { "0" }
    else if d == 1 { "1" }
    else if d == 2 { "2" }
    else if d == 3 { "3" }
    else if d == 4 { "4" }
    else if d == 5 { "5" }
    else if d == 6 { "6" }
    else if d == 7 { "7" }
    else if d == 8 { "8" }
    else { "9" }
}

/// Appends the decimal text of `n`.
pub fn push_decimal(s: &mut String, n: u64)
    ensures
        final(s)@ == old(s)@ + decimal(n as nat),
    decreases n,
{
    if n >= 10 {
        push_decimal(s, n / 10);
    }
    s.append(digit_str(n % 10));
    proof {
        if n >= 10 {
            assert(old(s)@ + decimal(n as nat) =~= old(s)@ + decimal((n / 10) as nat) + digit_text((n % 10) as nat));
        } else {
            assert(old(s)@ + decimal(n as nat) =~= old(s)@ + digit_text((n % 10) as nat));
        }
    }
}

/// The decimal text of `n`.
pub fn decimal_string(n: u64) -> (r: String)
    ensures
        r@ == decimal(n as nat),
{
    let mut s = String::new();
    push_decimal(&mut s, n);
    assert(s@ =~= decimal(n as nat));
    s
}

proof fn lemma_scaled_split(n: nat, den: nat, scale: nat, q: nat, r: nat, f: nat, rem: nat)
    requires
        den > 0,
        q == n / den,
        r == n % den,
        f == (r * scale) / den,
        rem == (r * scale) % den,
    ensures
        (n * scale) / den == q * scale + f,
        (n * scale) % den == rem,
{
    assert(n == q * den + r) by (nonlinear_arith)
        requires q == n / den, r == n % den, den > 0;
    assert(r * scale == f * den + rem) by (nonlinear_arith)
        requires f == (r * scale) / den, rem == (r * scale) % den, den > 0;
    assert(n * scale == (q * scale + f) * den + rem) by (nonlinear_arith)
        requires n == q * den + r, r * scale == f * den + rem;
    lemma_fundamental_div_mod_converse((n * scale) as int, den as int, (q * scale + f) as int, rem as int);
}

/// `n * scale / den`, rounded to the nearest integer, ties to even.
fn rounded_scaled(n: u64, den: u64, scale: u64) -> (t: u64)
    requires
        1024 <= den <= 1073741824,
        scale == 10 || scale == 100,
    ensures
        t == round_div(n as nat * scale as nat, den as nat),
        t <= 1801439850948198500,
{
    let q = n / den;
    let r = n % den;
    assert(r * scale < 107374182400) by (nonlinear_arith)
        requires r < den, den <= 1073741824, scale <= 100;
    let fnum = r * scale;
    let f = fnum / den;
    let rem = fnum % den;
    assert(fnum == f * den + rem) by (nonlinear_arith)
        requires f == fnum / den, rem == fnum % den, den > 0;
    assert(fnum < den * scale) by (nonlinear_arith)
        requires fnum == r * scale, r < den, scale > 0;
    assert(f < scale) by (nonlinear_arith)
        requires fnum == f * den + rem, rem >= 0, fnum < den * scale, den > 0;
    assert(q <= 18014398509481984) by (nonlinear_arith)
        requires q == n / den, den >= 1024, n <= u64::MAX;
    assert(q * scale <= 1801439850948198400) by (nonlinear_arith)
        requires q <= 18014398509481984, scale <= 100;
    let base = q * scale + f;
    proof {
        lemma_scaled_split(n as nat, den as nat, scale as nat, q as nat, r as nat, f as nat, rem as nat);
    }
    if 2 * rem > den || (2 * rem == den && base % 2 == 1) { base + 1 } else { base }
}

/// Appends `n / den` with `places` digits after the point (see `fixed_text`).
pub fn push_fixed(s: &mut String, n: u64, den: u64, places: u64)
    requires
        1024 <= den <= 1073741824,
        places == 1 || places == 2,
    ensures
        final(s)@ == old(s)@ + fixed_text(n as nat, den as nat, places as nat),
{
    let scale: u64 = if places == 1 { 10 } else { 100 };
    let t = rounded_scaled(n, den, scale);
    push_decimal(s, t / scale);
    s.append(".");
    let frac = t % scale;
    if places == 1 {
        s.append(digit_str(frac));
    } else {
        s.append(digit_str(frac / 10));
        s.append(digit_str(frac % 10));
    }
    proof {
        assert(final(s)@ =~= old(s)@ + fixed_text(n as nat, den as nat, places as nat));
    }
}

} // verus!
