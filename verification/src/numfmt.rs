//! Decimal and scientific-notation rendering of integer quantities.
//!
//! Elapsed times are carried as whole nanoseconds and rendered as seconds in
//! scientific notation with six fractional digits (`1.234000e-4`), the format
//! the sample logs use. Everything here is exact integer arithmetic; the
//! rounding to seven significant digits is round-half-up.

use vstd::prelude::*;

verus! {

/// The decimal digit character for a value; digits above nine never arise.
pub open spec fn digit_char(d: nat) -> char {
    if d == 0 {
        '0'
    } else if d == 1 {
        '1'
    } else if d == 2 {
        '2'
    } else if d == 3 {
        '3'
    } else if d == 4 {
        '4'
    } else if d == 5 {
        '5'
    } else if d == 6 {
        '6'
    } else if d == 7 {
        '7'
    } else if d == 8 {
        '8'
    } else {
        '9'
    }
}

/// The usual decimal rendering of a natural number, most significant digit
/// first, with no leading zeros (zero itself is rendered as one digit).
pub open spec fn spec_decimal(n: nat) -> Seq<char>
    decreases n,
{
    if n < 10 {
        seq![digit_char(n)]
    } else {
        spec_decimal(n / 10).push(digit_char(n % 10))
    }
}

/// Ten to the power `e`.
pub open spec fn pow10(e: nat) -> nat
    decreases e,
{
    if e == 0 {
        1
    } else {
        10 * pow10((e - 1) as nat)
    }
}

/// How many decimal digits `spec_decimal` uses for `n`.
pub open spec fn spec_digit_len(n: nat) -> nat
    decreases n,
{
    if n < 10 {
        1
    } else {
        1 + spec_digit_len(n / 10)
    }
}

pub proof fn lemma_pow10_positive(e: nat)
    ensures
        pow10(e) >= 1,
    decreases e,
{
    if e > 0 {
        lemma_pow10_positive((e - 1) as nat);
    }
}

pub proof fn lemma_pow10_monotone(a: nat, b: nat)
    requires
        a <= b,
    ensures
        pow10(a) <= pow10(b),
    decreases b,
{
    if a < b {
        lemma_pow10_monotone(a, (b - 1) as nat);
        lemma_pow10_positive((b - 1) as nat);
    }
}

/// Every number is below ten to the power of its own digit count.
pub proof fn lemma_below_pow10_of_digit_len(n: nat)
    ensures
        n < pow10(spec_digit_len(n)),
    decreases n,
{
    if n < 10 {
        reveal_with_fuel(pow10, 2);
        assert(pow10(1) == 10);
    } else {
        lemma_below_pow10_of_digit_len(n / 10);
        assert(n < 10 * pow10(spec_digit_len(n / 10))) by (nonlinear_arith)
            requires
                n >= 10,
                n / 10 < pow10(spec_digit_len(n / 10)),
        {}
        assert(spec_digit_len(n) == 1 + spec_digit_len(n / 10));
        assert(pow10(spec_digit_len(n)) == 10 * pow10(spec_digit_len(n / 10)));
    }
}

/// A 64-bit number has at most twenty decimal digits.
pub proof fn lemma_digit_len_at_most_20(n: u64)
    ensures
        spec_digit_len(n as nat) <= 20,
{
    reveal_with_fuel(pow10, 21);
    assert(pow10(20) == 100000000000000000000);
    lemma_digit_len_below(n as nat, 20);
}

proof fn lemma_digit_len_below(n: nat, k: nat)
    requires
        k >= 1,
        n < pow10(k),
    ensures
        spec_digit_len(n) <= k,
    decreases k,
{
    if n < 10 {
    } else {
        assert(n / 10 < pow10((k - 1) as nat)) by (nonlinear_arith)
            requires
                n >= 10,
                n < pow10(k),
                pow10(k) == 10 * pow10((k - 1) as nat),
        {}
        lemma_digit_len_below(n / 10, (k - 1) as nat);
    }
}

pub proof fn lemma_pow10_adds(a: nat, b: nat)
    ensures
        pow10(a) * pow10(b) == pow10((a + b) as nat),
    decreases a,
{
    if a == 0 {
        assert(pow10(0) == 1);
        assert((0 + b) as nat == b);
        assert(pow10(a) * pow10(b) == pow10(b));
    } else {
        let c = (a - 1) as nat;
        lemma_pow10_adds(c, b);
        assert(pow10(a) == 10 * pow10(c));
        assert((c + b) as nat == (a + b - 1) as nat);
        assert(pow10((a + b) as nat) == 10 * pow10((a + b - 1) as nat));
        assert(pow10(a) * pow10(b) == 10 * (pow10(c) * pow10(b)))
            by (nonlinear_arith)
            requires
                pow10(a) == 10 * pow10(c),
        {}
        assert(pow10(a) * pow10(b) == 10 * pow10((c + b) as nat));
        assert(pow10(a) * pow10(b) == pow10((a + b) as nat));
    }
}

/// Dividing by `p` and rounding half up.
pub open spec fn round_half_up(n: nat, p: nat) -> nat {
    if 2 * (n % p) >= p {
        n / p + 1
    } else {
        n / p
    }
}

/// The seven significant decimal digits of `nanos`, rounded half up: the
/// digits of `nanos` padded with trailing zeros up to seven, or its first
/// seven digits rounded by the rest. A value of `pow10(7)` means the
/// rounding carried into an eighth digit.
pub open spec fn sci_mantissa_raw(nanos: nat) -> nat {
    let k = spec_digit_len(nanos);
    if k <= 7 {
        nanos * pow10((7 - k) as nat)
    } else {
        round_half_up(nanos, pow10((k - 7) as nat))
    }
}

/// Whether rounding to seven significant digits carried over.
pub open spec fn sci_carries(nanos: nat) -> bool {
    sci_mantissa_raw(nanos) == pow10(7)
}

/// The mantissa printed for `nanos`, as a seven-digit number `dddddddd`
/// standing for `d.dddddd`.
pub open spec fn sci_mantissa(nanos: nat) -> nat {
    if sci_carries(nanos) {
        pow10(6)
    } else {
        sci_mantissa_raw(nanos)
    }
}

/// The power of ten printed for `nanos` nanoseconds expressed in seconds.
pub open spec fn sci_exponent(nanos: nat) -> int {
    let k = spec_digit_len(nanos);
    if sci_carries(nanos) {
        k - 9
    } else {
        k - 10
    }
}

/// The characters `d.dddddd` of a seven-digit mantissa.
pub open spec fn spec_mantissa_chars(m: nat) -> Seq<char> {
    seq![
        digit_char(m / 1000000 % 10),
        '.',
        digit_char(m / 100000 % 10),
        digit_char(m / 10000 % 10),
        digit_char(m / 1000 % 10),
        digit_char(m / 100 % 10),
        digit_char(m / 10 % 10),
        digit_char(m % 10),
    ]
}

/// A possibly negative exponent in decimal, with no explicit plus sign.
pub open spec fn spec_exp_chars(e: int) -> Seq<char> {
    if e < 0 {
        seq!['-'] + spec_decimal((-e) as nat)
    } else {
        spec_decimal(e as nat)
    }
}

/// `nanos` nanoseconds expressed in seconds, in scientific notation with six
/// fractional digits, e.g. `1.234000e-4`. Zero prints as `0.000000e0`.
pub open spec fn spec_sci(nanos: nat) -> Seq<char> {
    if nanos == 0 {
        "0.000000e0"@
    } else {
        spec_mantissa_chars(sci_mantissa(nanos)) + seq!['e'] + spec_exp_chars(
            sci_exponent(nanos),
        )
    }
}

/// Every positive number reaches ten to the power of one less than its own
/// digit count.
pub proof fn lemma_at_least_pow10_of_digit_len(n: nat)
    requires
        n > 0,
    ensures
        n >= pow10((spec_digit_len(n) - 1) as nat),
    decreases n,
{
    if n < 10 {
    } else {
        lemma_at_least_pow10_of_digit_len(n / 10);
        let l = (spec_digit_len(n / 10) - 1) as nat;
        assert(n >= 10 * (n / 10)) by (nonlinear_arith)
            requires
                n >= 10,
        {}
        assert(10 * (n / 10) >= 10 * pow10(l)) by (nonlinear_arith)
            requires
                n / 10 >= pow10(l),
        {}
    }
}

/// The printed mantissa always has exactly seven digits: it lies between
/// one million inclusive and ten million exclusive.
pub proof fn lemma_sci_mantissa_range(nanos: nat)
    requires
        nanos > 0,
    ensures
        pow10(6) <= sci_mantissa(nanos) < pow10(7),
{
    let k = spec_digit_len(nanos);
    reveal_with_fuel(pow10, 9);
    lemma_at_least_pow10_of_digit_len(nanos);
    lemma_below_pow10_of_digit_len(nanos);
    if sci_carries(nanos) {
    } else if k <= 7 {
        lemma_pow10_adds((k - 1) as nat, (7 - k) as nat);
        lemma_pow10_adds(k, (7 - k) as nat);
        lemma_pow10_positive((7 - k) as nat);
        assert(nanos * pow10((7 - k) as nat) >= pow10((k - 1) as nat) * pow10(
            (7 - k) as nat,
        )) by (nonlinear_arith)
            requires
                nanos >= pow10((k - 1) as nat),
                pow10((7 - k) as nat) >= 1,
        {}
        assert(nanos * pow10((7 - k) as nat) < pow10(k) * pow10((7 - k) as nat))
            by (nonlinear_arith)
            requires
                nanos < pow10(k),
                pow10((7 - k) as nat) >= 1,
        {}
    } else {
        let p = pow10((k - 7) as nat);
        lemma_pow10_positive((k - 7) as nat);
        lemma_pow10_adds((k - 7) as nat, 6);
        lemma_pow10_adds((k - 7) as nat, 7);
        vstd::arithmetic::div_mod::lemma_fundamental_div_mod(nanos as int, p as int);
        assert(nanos / p >= pow10(6)) by (nonlinear_arith)
            requires
                p >= 1,
                nanos >= p * pow10(6),
                nanos == p * (nanos / p) + nanos % p,
                nanos % p < p,
        {}
        assert(nanos / p < pow10(7)) by (nonlinear_arith)
            requires
                p >= 1,
                nanos < p * pow10(7),
                nanos == p * (nanos / p) + nanos % p,
                0 <= nanos % p,
        {}
    }
}

/// Rounding accuracy: when digits are cut off, the printed mantissa stands
/// for the elapsed time to within half a unit in its last place — the
/// rounding error `mantissa * pow10(k - 7) - nanos` lies in the half-open
/// interval from `-p/2` exclusive to `p/2` inclusive, scaled by two below
/// to stay in whole numbers.
pub proof fn lemma_sci_rounding_accuracy(nanos: nat)
    requires
        spec_digit_len(nanos) > 7,
    ensures
        -(pow10((spec_digit_len(nanos) - 7) as nat) as int) < 2 * (sci_mantissa_raw(
            nanos,
        ) * pow10((spec_digit_len(nanos) - 7) as nat) - nanos),
        2 * (sci_mantissa_raw(nanos) * pow10((spec_digit_len(nanos) - 7) as nat) - nanos)
            <= pow10((spec_digit_len(nanos) - 7) as nat),
{
    let k = spec_digit_len(nanos);
    let p = pow10((k - 7) as nat);
    let q = nanos / p;
    let r = nanos % p;
    lemma_pow10_positive((k - 7) as nat);
    vstd::arithmetic::div_mod::lemma_fundamental_div_mod(nanos as int, p as int);
    if 2 * r >= p {
        assert((q + 1) * p == q * p + p) by (nonlinear_arith) {}
    } else {
        assert(q * p == nanos - r);
    }
}

/// A single decimal digit as a one-character string.
pub fn digit_str(d: u64) -> (r: &'static str)
    requires
        d < 10,
    ensures
        r@ == seq![digit_char(d as nat)],
{
    proof {
        reveal_strlit("0");
        reveal_strlit("1");
        reveal_strlit("2");
        reveal_strlit("3");
        reveal_strlit("4");
        reveal_strlit("5");
        reveal_strlit("6");
        reveal_strlit("7");
        reveal_strlit("8");
        reveal_strlit("9");
    }
    let r: &'static str = if d == 0 {
        "0"
    } else if d == 1 {
        "1"
    } else if d == 2 {
        "2"
    } else if d == 3 {
        "3"
    } else if d == 4 {
        "4"
    } else if d == 5 {
        "5"
    } else if d == 6 {
        "6"
    } else if d == 7 {
        "7"
    } else if d == 8 {
        "8"
    } else {
        "9"
    };
    proof {
        assert(r@ =~= seq![digit_char(d as nat)]);
    }
    r
}

/// The decimal rendering of `n`, most significant digit first.
pub fn decimal_string(n: u64) -> (r: String)
    ensures
        r@ == spec_decimal(n as nat),
    decreases n,
{
    if n < 10 {
        digit_str(n).to_owned()
    } else {
        let mut s = decimal_string(n / 10);
        s.append(digit_str(n % 10));
        proof {
            assert(s@ =~= spec_decimal(n as nat));
        }
        s
    }
}

/// How many decimal digits `n` has.
pub fn digit_len(n: u64) -> (l: usize)
    ensures
        l == spec_digit_len(n as nat),
    decreases n,
{
    proof {
        lemma_digit_len_at_most_20(n);
    }
    if n < 10 {
        1
    } else {
        proof {
            lemma_digit_len_at_most_20(n / 10);
        }
        1 + digit_len(n / 10)
    }
}

/// The mantissa (as a seven-digit number) and exponent printed for a
/// positive nanosecond count.
#[verifier::rlimit(60)]
fn sci_parts(nanos: u64) -> (r: (u64, i64))
    requires
        nanos > 0,
    ensures
        r.0 == sci_mantissa(nanos as nat),
        r.1 == sci_exponent(nanos as nat),
{
    let k = digit_len(nanos);
    proof {
        lemma_digit_len_at_most_20(nanos);
        lemma_below_pow10_of_digit_len(nanos as nat);
        reveal_with_fuel(pow10, 15);
        assert(pow10(7) == 10000000);
        assert(pow10(6) == 1000000);
        assert(pow10(13) == 10000000000000);
    }
    let m: u64;
    let exp: i64;
    if k <= 7 {
        let p = pow10_u64(7 - k);
        proof {
            lemma_pow10_adds(k as nat, (7 - k) as nat);
            assert((nanos as nat) * (p as nat) < pow10(7)) by (nonlinear_arith)
                requires
                    (nanos as nat) < pow10(k as nat),
                    p == pow10((7 - k) as nat),
                    pow10(k as nat) * pow10((7 - k) as nat) == pow10(7),
                    p >= 1,
            {}
        }
        m = nanos * p;
        exp = k as i64 - 10;
        proof {
            assert(!sci_carries(nanos as nat));
        }
    } else {
        let p = pow10_u64(k - 7);
        proof {
            lemma_pow10_monotone(1, (k - 7) as nat);
            lemma_pow10_monotone((k - 7) as nat, 13);
            reveal_with_fuel(pow10, 3);
            assert(pow10(1) == 10);
            lemma_pow10_adds((k - 7) as nat, 7);
            vstd::arithmetic::div_mod::lemma_fundamental_div_mod(
                nanos as int,
                p as int,
            );
            assert((nanos as nat) / (p as nat) < pow10(7)) by (nonlinear_arith)
                requires
                    p >= 10,
                    (nanos as nat) < pow10((k - 7) as nat) * pow10(7),
                    p == pow10((k - 7) as nat),
                    nanos == p * ((nanos as nat) / (p as nat)) + (nanos as nat) % (
                    p as nat),
                    (nanos as nat) % (p as nat) < p,
            {}
        }
        let q = nanos / p;
        let rem = nanos % p;
        let m0 = if 2 * rem >= p {
            q + 1
        } else {
            q
        };
        if m0 == 10000000 {
            m = 1000000;
            exp = k as i64 - 9;
        } else {
            m = m0;
            exp = k as i64 - 10;
        }
    }
    proof {
        assert(m == sci_mantissa(nanos as nat));
        assert(exp == sci_exponent(nanos as nat));
    }
    (m, exp)
}

/// Renders `nanos` nanoseconds as seconds in scientific notation with six
/// fractional digits, matching `spec_sci`.
#[verifier::rlimit(60)]
pub fn sci_string(nanos: u64) -> (r: String)
    ensures
        r@ == spec_sci(nanos as nat),
{
    if nanos == 0 {
        return "0.000000e0".to_owned();
    }
    let parts = sci_parts(nanos);
    let m = parts.0;
    let exp = parts.1;
    proof {
        reveal_strlit(".");
        reveal_strlit("e");
        reveal_strlit("-");
    }
    let mut s = digit_str(m / 1000000 % 10).to_owned();
    s.append(".");
    s.append(digit_str(m / 100000 % 10));
    s.append(digit_str(m / 10000 % 10));
    s.append(digit_str(m / 1000 % 10));
    s.append(digit_str(m / 100 % 10));
    s.append(digit_str(m / 10 % 10));
    s.append(digit_str(m % 10));
    s.append("e");
    if exp < 0 {
        s.append("-");
        let e = decimal_string((-exp) as u64);
        s.append(e.as_str());
    } else {
        let e = decimal_string(exp as u64);
        s.append(e.as_str());
    }
    proof {
        assert(s@ =~= spec_sci(nanos as nat));
    }
    s
}

/// Ten to the power `e` as a 64-bit value.
pub fn pow10_u64(e: usize) -> (r: u64)
    requires
        e <= 19,
    ensures
        r == pow10(e as nat),
{
    let mut r: u64 = 1;
    let mut i: usize = 0;
    while i < e
        invariant
            i <= e,
            e <= 19,
            r == pow10(i as nat),
        decreases e - i,
    {
        proof {
            lemma_pow10_monotone((i + 1) as nat, 19);
            reveal_with_fuel(pow10, 21);
            assert(pow10(19) == 10000000000000000000);
        }
        r = r * 10;
        i = i + 1;
    }
    r
}

} // verus!
