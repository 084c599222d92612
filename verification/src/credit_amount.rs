//! Amounts of credit and expiry instants: plain decimals with at most six
//! fractional digits, held against the range of a ledger that counts
//! millionths, and RFC 3339 timestamps.
use std::str::FromStr;

use vstd::prelude::*;

use crate::scalars::TimeScalar;
use crate::text::{chars_of, trim, trimmed};

verus! {

// ---------------------------------------------------------------------------
// Plain decimals
// ---------------------------------------------------------------------------

/// Ten to the power `n`.
pub open spec fn pow10(n: nat) -> nat
    decreases n,
{
    if n == 0 {
        1
    } else {
        10 * pow10((n - 1) as nat)
    }
}

/// Whether `c` is one of the ten ASCII digits.
pub open spec fn is_digit(c: char) -> bool {
    '0' <= c && c <= '9'
}

/// Whether every character is a digit.
pub open spec fn all_digits(s: Seq<char>) -> bool {
    forall|i: int| 0 <= i < s.len() ==> is_digit(#[trigger] s[i])
}

/// The number that digits write.
pub open spec fn digits_value(s: Seq<char>) -> nat
    decreases s.len(),
{
    if s.len() == 0 {
        0
    } else {
        10 * digits_value(s.drop_last()) + (s.last() as nat - '0' as nat) as nat
    }
}

/// Whether `s` is a plain decimal with `f` fractional digits: at least one digit,
/// and where `f` is not zero a point and `f` digits more. There is no sign, no
/// exponent and no separator, and `f` is at most six.
pub open spec fn plain_at(s: Seq<char>, f: int) -> bool {
    ||| f == 0 && s.len() > 0 && all_digits(s)
    ||| {
        &&& 1 <= f <= 6
        &&& s.len() > f + 1
        &&& s[s.len() - 1 - f] == '.'
        &&& all_digits(s.take(s.len() - 1 - f))
        &&& all_digits(s.skip(s.len() - f))
    }
}

/// Whether `s` is a plain decimal with at most six fractional digits.
pub open spec fn is_plain(s: Seq<char>) -> bool {
    exists|f: int| plain_at(s, f)
}

/// The digits of a plain decimal with `f` fractional digits, without its point.
pub open spec fn digits_at(s: Seq<char>, f: int) -> Seq<char> {
    if f == 0 {
        s
    } else {
        s.take(s.len() - 1 - f) + s.skip(s.len() - f)
    }
}

/// The number of a plain decimal with `f` fractional digits, times ten to the
/// power `f`.
pub open spec fn mantissa_at(s: Seq<char>, f: int) -> nat {
    digits_value(digits_at(s, f))
}

/// Whether `mantissa` divided by ten to the power `scale` is more than zero and at
/// most `i64::MAX` millionths.
pub open spec fn within_ledger(mantissa: int, scale: nat) -> bool {
    0 < mantissa && mantissa * pow10(6) <= i64::MAX * pow10(scale)
}

/// The refusal of an amount that is no plain decimal.
pub open spec fn shape_refusal() -> Seq<char> {
    "amount must be a positive decimal with at most 6 fractional digits"@
}

/// The refusal of an amount outside the ledger's range.
pub open spec fn range_refusal() -> Seq<char> {
    "amount must be positive and fit the credit ledger range"@
}

/// What is wrong with an amount, if anything is.
pub open spec fn amount_fault(value: Seq<char>) -> Option<Seq<char>> {
    let s = trimmed(value);
    if exists|f: int| plain_at(s, f) && within_ledger(mantissa_at(s, f) as int, f as nat) {
        None
    } else if !is_plain(s) || decimal_of_text(s) is None {
        Some(shape_refusal())
    } else {
        Some(range_refusal())
    }
}

/// What `rust_decimal::Decimal::from_str` reads from a text: the mantissa and the
/// scale, or nothing where it refuses the text.
pub uninterp spec fn decimal_of_text(text: Seq<char>) -> Option<(i128, u32)>;

/// Of a plain decimal the mantissa and the scale are read as they are written where
/// the mantissa fits 96 bits; where it does not, at least 2 to the power 92 is left
/// of it, with no more than six fractional digits, if anything is read at all.
pub open spec fn keeps_plain_digits(parsed: Option<(i128, u32)>, s: Seq<char>) -> bool {
    forall|f: int| #[trigger]
        plain_at(s, f) ==> {
            let written = mantissa_at(s, f);
            if written < 0x1_0000_0000_0000_0000_0000_0000 {
                parsed matches Some((m, places)) && m == written && places == f
            } else {
                parsed matches Some((m, places)) ==> m >= 0x1000_0000_0000_0000_0000_0000
                    && places <= 6
            }
        }
}

/// Calls `rust_decimal::Decimal::from_str`. Of a plain decimal with at most six
/// fractional digits it claims that the digits and their number come back
/// unchanged as mantissa and scale where the mantissa fits 96 bits. Where it does
/// not fit, the text is refused, or digits are rounded away from the end: then at
/// least 2 to the power 92 is left as mantissa, with no more than six fractional
/// digits. Which of the two happens is left to the name.
#[verifier::external_body]
fn read_decimal(text: &str) -> (parsed: Option<(i128, u32)>)
    ensures
        parsed == decimal_of_text(text@),
        keeps_plain_digits(parsed, text@),
{
    match rust_decimal::Decimal::from_str(text) {
        Ok(amount) => Some((amount.mantissa(), amount.scale())),
        Err(_) => None,
    }
}

fn digit(c: char) -> (found: bool)
    ensures
        found == is_digit(c),
{
    '0' <= c && c <= '9'
}

/// Whether the characters from `from` up to `to` are all digits.
fn digits_between(chars: &Vec<char>, from: usize, to: usize) -> (found: bool)
    requires
        from <= to <= chars@.len(),
    ensures
        found == all_digits(chars@.subrange(from as int, to as int)),
{
    let mut i: usize = from;
    while i < to
        invariant
            from <= i <= to <= chars@.len(),
            forall|j: int| from <= j < i ==> is_digit(#[trigger] chars@[j]),
        decreases to - i,
    {
        if !digit(chars[i]) {
            assert(!is_digit(chars@.subrange(from as int, to as int)[i - from]));
            return false;
        }
        i += 1;
    }
    assert forall|j: int| 0 <= j < to - from implies is_digit(
        #[trigger] chars@.subrange(from as int, to as int)[j],
    ) by {
        assert(is_digit(chars@[from + j]));
    }
    true
}

/// The number of fractional digits of a plain decimal.
fn fractional_digits(chars: &Vec<char>) -> (scale: Option<usize>)
    ensures
        match scale {
            Some(f) => plain_at(chars@, f as int),
            None => !is_plain(chars@),
        },
{
    let ghost s = chars@;
    let mut point: usize = 0;
    while point < chars.len() && chars[point] != '.'
        invariant
            s == chars@,
            point <= s.len(),
            forall|j: int| 0 <= j < point ==> s[j] != '.',
        decreases s.len() - point,
    {
        point += 1;
    }
    proof {
        assert forall|f: int| #[trigger] plain_at(s, f) implies (f == 0 && point == s.len()) || (f
            > 0 && point == s.len() - 1 - f) by {
            if f == 0 {
                if point < s.len() {
                    assert(is_digit(s[point as int]));
                }
            } else {
                let p = s.len() - 1 - f;
                assert(s[p] == '.');
                if point < p {
                    assert(is_digit(s.take(p)[point as int]));
                }
            }
        }
        assert(s.subrange(0, point as int) =~= s.take(point as int));
    }
    if point == 0 || !digits_between(chars, 0, point) {
        proof {
            assert(s.take(s.len() as int) =~= s);
        }
        return None;
    }
    if point == chars.len() {
        proof {
            assert(s.take(s.len() as int) =~= s);
            assert(plain_at(s, 0));
        }
        return Some(0);
    }
    let length: usize = chars.len() - 1 - point;
    assert(s.subrange(point + 1, s.len() as int) =~= s.skip(s.len() - length));
    if length == 0 || length > 6 || !digits_between(chars, point + 1, chars.len()) {
        return None;
    }
    assert(plain_at(s, length as int));
    Some(length)
}

/// Whether `mantissa` divided by ten to the power `scale` is more than zero and at
/// most `i64::MAX` millionths.
pub fn fits_credit_ledger(mantissa: i128, scale: u32) -> (fits: bool)
    ensures
        fits == within_ledger(mantissa as int, scale as nat),
{
    if mantissa <= 0 {
        return false;
    }
    let most: i128 = 9_223_372_036_854_775_807;
    let mut left: i128 = mantissa;
    let mut places: u32 = scale;
    proof {
        reveal_with_fuel(pow10, 8);
    }
    while places > 6 && left > most
        invariant
            left > 0,
            most == i64::MAX,
            within_ledger(mantissa as int, scale as nat) == within_ledger(
                left as int,
                places as nat,
            ),
        decreases places,
    {
        let next: i128 = (left - 1) / 10 + 1;
        proof {
            drop_one_place(left as int, places as nat);
        }
        left = next;
        places -= 1;
    }
    proof {
        reveal_with_fuel(pow10, 8);
    }
    if places > 6 {
        proof {
            pow10_grows(6, places as nat);
            let p = pow10(places as nat) as int;
            assert(left * 1_000_000 <= i64::MAX * p) by (nonlinear_arith)
                requires
                    0 < left <= i64::MAX,
                    p >= 1_000_000,
            ;
        }
        return true;
    }
    let unit: i128 = if places == 0 {
        1_000_000
    } else if places == 1 {
        100_000
    } else if places == 2 {
        10_000
    } else if places == 3 {
        1_000
    } else if places == 4 {
        100
    } else if places == 5 {
        10
    } else {
        1
    };
    proof {
        reveal_with_fuel(pow10, 8);
        assert(unit == pow10((6 - places) as nat));
        counts_in_units(left as int, places as nat, unit as int);
    }
    left <= most / unit
}

/// With at most six places, a mantissa counts whole millionths.
proof fn counts_in_units(mantissa: int, places: nat, unit: int)
    requires
        mantissa > 0,
        places <= 6,
        unit == pow10((6 - places) as nat),
    ensures
        within_ledger(mantissa, places) == (mantissa <= (i64::MAX as int) / unit),
{
    pow10_grows(0, (6 - places) as nat);
    whole_millionths(mantissa, places);
    let most = i64::MAX as int;
    let quotient = most / unit;
    assert(unit * quotient <= most < unit * quotient + unit) by (nonlinear_arith)
        requires
            unit > 0,
            quotient == most / unit,
    ;
    assert(mantissa * unit <= most <==> mantissa <= quotient) by (nonlinear_arith)
        requires
            unit > 0,
            unit * quotient <= most < unit * quotient + unit,
    ;
    let power = pow10((6 - places) as nat) as int;
    assert(mantissa * power == mantissa * unit && 0 < mantissa * unit) by (nonlinear_arith)
        requires
            power == unit,
            unit > 0,
            mantissa > 0,
    ;
}

proof fn pow10_grows(a: nat, b: nat)
    requires
        a <= b,
    ensures
        1 <= pow10(a) <= pow10(b),
    decreases b,
{
    if a == b {
        if a > 0 {
            pow10_grows((a - 1) as nat, (a - 1) as nat);
        }
    } else {
        pow10_grows(a, (b - 1) as nat);
    }
}

/// With more than six places, one place can be dropped if the mantissa is rounded
/// up.
proof fn drop_one_place(mantissa: int, scale: nat)
    requires
        mantissa > 0,
        scale > 6,
    ensures
        within_ledger(mantissa, scale) == within_ledger(
            (mantissa - 1) / 10 + 1,
            (scale - 1) as nat,
        ),
{
    reveal_with_fuel(pow10, 8);
    let shorter = (scale - 1) as nat;
    pow10_splits(shorter, 6);
    let rest = pow10((shorter - 6) as nat) as int;
    let up = (mantissa - 1) / 10 + 1;
    assert(pow10(shorter) == rest * 1_000_000);
    assert(pow10(scale) == 10 * (rest * 1_000_000));
    let room = i64::MAX * rest;
    assert(i64::MAX * pow10(shorter) == room * 1_000_000) by (nonlinear_arith)
        requires
            pow10(shorter) == rest * 1_000_000,
            room == i64::MAX * rest,
    ;
    assert(i64::MAX * pow10(scale) == 10 * room * 1_000_000) by (nonlinear_arith)
        requires
            pow10(scale) == 10 * (rest * 1_000_000),
            room == i64::MAX * rest,
    ;
    assert(mantissa <= 10 * room <==> up <= room);
    in_units(mantissa, scale);
    in_units(up, shorter);
}

proof fn in_units(mantissa: int, scale: nat)
    ensures
        pow10(6) == 1_000_000,
        mantissa * pow10(6) == mantissa * 1_000_000,
        within_ledger(mantissa, scale) == (0 < mantissa && mantissa * 1_000_000 <= i64::MAX * pow10(
            scale,
        )),
{
    reveal_with_fuel(pow10, 8);
    assert(pow10(6) == 1_000_000);
    let million = pow10(6) as int;
    assert(mantissa * million == mantissa * 1_000_000) by (nonlinear_arith)
        requires
            million == 1_000_000,
    ;
}

proof fn pow10_splits(n: nat, m: nat)
    requires
        m <= n,
    ensures
        pow10(n) == pow10((n - m) as nat) * pow10(m),
    decreases m,
{
    reveal_with_fuel(pow10, 2);
    if m > 0 {
        pow10_splits(n, (m - 1) as nat);
        let a = pow10((n - m) as nat) as int;
        let b = pow10((m - 1) as nat) as int;
        assert(pow10((n - (m - 1)) as nat) == 10 * a);
        assert(pow10(m) == 10 * b);
        assert((10 * a) * b == a * (10 * b)) by (nonlinear_arith);
    } else {
        assert(pow10(n) * 1 == pow10(n));
    }
}

/// A plain decimal shows its number of fractional digits in one way only.
proof fn plain_at_one_place(s: Seq<char>, f: int, g: int)
    requires
        plain_at(s, f),
        plain_at(s, g),
    ensures
        f == g,
{
    let (few, many) = if f < g {
        (f, g)
    } else {
        (g, f)
    };
    let p = s.len() - 1 - many;
    if few < many {
        assert(s[p] == '.');
        if few == 0 {
            assert(is_digit(s[p]));
        } else {
            assert(is_digit(s.take(s.len() - 1 - few)[p]));
        }
    }
}

/// Checks an amount of credit.
pub(crate) fn validate_amount(value: &str) -> (fault: Option<String>)
    ensures
        crate::text::optional_text(fault) == amount_fault(value@),
{
    let text = trim(value);
    let chars = chars_of(text.as_str());
    let ghost s = text@;
    match fractional_digits(&chars) {
        None => Some(
            "amount must be a positive decimal with at most 6 fractional digits".to_owned(),
        ),
        Some(f) => match read_decimal(text.as_str()) {
            None => {
                proof {
                    assert forall|g: int| #[trigger] plain_at(s, g) implies !within_ledger(
                        mantissa_at(s, g) as int,
                        g as nat,
                    ) by {
                        too_large_for_the_ledger(mantissa_at(s, g) as int, g as nat);
                    }
                }
                Some(
                    "amount must be a positive decimal with at most 6 fractional digits".to_owned(),
                )
            },
            Some((mantissa, scale)) => {
                let fits = fits_credit_ledger(mantissa, scale);
                proof {
                    let m = mantissa_at(s, f as int);
                    assert(plain_at(s, f as int));
                    assert forall|g: int|
                        #[trigger] plain_at(s, g) && within_ledger(
                            mantissa_at(s, g) as int,
                            g as nat,
                        ) implies fits by {
                        plain_at_one_place(s, f as int, g);
                        if m >= 0x1_0000_0000_0000_0000_0000_0000 {
                            too_large_for_the_ledger(m as int, f as nat);
                        }
                    }
                    if m >= 0x1_0000_0000_0000_0000_0000_0000 {
                        too_large_for_the_ledger(mantissa as int, scale as nat);
                    }
                }
                if fits {
                    None
                } else {
                    Some("amount must be positive and fit the credit ledger range".to_owned())
                }
            },
        },
    }
}

proof fn too_large_for_the_ledger(mantissa: int, scale: nat)
    requires
        mantissa >= 0x1000_0000_0000_0000_0000_0000,
        scale <= 6,
    ensures
        !within_ledger(mantissa, scale),
{
    pow10_grows(scale, 6);
    reveal_with_fuel(pow10, 8);
    let p = pow10(scale) as int;
    assert(i64::MAX * p <= i64::MAX * 1_000_000) by (nonlinear_arith)
        requires
            0 <= p <= 1_000_000,
    ;
    in_units(mantissa, scale);
}

// ---------------------------------------------------------------------------
// Instants
// ---------------------------------------------------------------------------

/// What `chrono::DateTime::parse_from_rfc3339` reads from a text: the seconds
/// since the Unix epoch and the nanoseconds into that second, or nothing where it
/// refuses the text.
pub uninterp spec fn rfc3339_instant(text: Seq<char>) -> Option<(i64, u32)>;

/// Calls `chrono::DateTime::parse_from_rfc3339` and takes the instant's
/// `timestamp` and `timestamp_subsec_nanos`, which do not depend on the offset
/// that the text is written in. It claims that the result depends on the text
/// alone.
#[verifier::external_body]
pub(crate) fn read_rfc3339(text: &str) -> (instant: Option<(i64, u32)>)
    ensures
        instant == rfc3339_instant(text@),
{
    match chrono::DateTime::parse_from_rfc3339(text) {
        Ok(time) => Some((time.timestamp(), time.timestamp_subsec_nanos())),
        Err(_) => None,
    }
}

/// Calls `chrono::Utc::now`. Nothing is claimed of the time it gives.
#[verifier::external_body]
pub(crate) fn current_time() -> (now: TimeScalar) {
    let now = chrono::Utc::now();
    TimeScalar { seconds: now.timestamp(), nanos: now.timestamp_subsec_nanos() }
}

/// Whether `now` is a reading of the clock: a time that `current_time` gave.
pub closed spec fn clock_reads(now: TimeScalar) -> bool {
    call_ensures(current_time, (), now)
}

/// The time as the clock gives it.
pub(crate) fn read_clock() -> (now: TimeScalar)
    ensures
        clock_reads(now),
{
    current_time()
}

/// Whether `a` is later than `b`.
pub open spec fn later(a: TimeScalar, b: TimeScalar) -> bool {
    a.seconds > b.seconds || (a.seconds == b.seconds && a.nanos > b.nanos)
}

/// Whether `a` is later than `b`.
pub fn is_after(a: TimeScalar, b: TimeScalar) -> (after: bool)
    ensures
        after == later(a, b),
{
    a.seconds > b.seconds || (a.seconds == b.seconds && a.nanos > b.nanos)
}

// ---------------------------------------------------------------------------
// Laws
// ---------------------------------------------------------------------------

/// An amount is accepted exactly when it is a plain decimal that makes a whole
/// number of millionths between one and `i64::MAX`.
pub proof fn accepted_amounts_are_ledger_millionths(value: Seq<char>)
    ensures
        amount_fault(value) is None ==> exists|f: int|
            {
                &&& #[trigger] plain_at(trimmed(value), f)
                &&& 0 < mantissa_at(trimmed(value), f) * pow10((6 - f) as nat) <= i64::MAX
            },
        forall|f: int|
            #[trigger] plain_at(trimmed(value), f) && 0 < mantissa_at(trimmed(value), f) * pow10(
                (6 - f) as nat,
            ) <= i64::MAX
                ==> amount_fault(value) is None,
{
    let s = trimmed(value);
    assert forall|f: int| #[trigger] plain_at(s, f) implies within_ledger(
        mantissa_at(s, f) as int,
        f as nat,
    ) == (0 < mantissa_at(s, f) * pow10((6 - f) as nat) <= i64::MAX) by {
        whole_millionths(mantissa_at(s, f) as int, f as nat);
    }
}

proof fn whole_millionths(mantissa: int, f: nat)
    requires
        f <= 6,
    ensures
        within_ledger(mantissa, f) == (0 < mantissa * pow10((6 - f) as nat) <= i64::MAX),
{
    in_units(mantissa, f);
    pow10_splits(6, f);
    pow10_grows(0, f);
    let rest = pow10((6 - f) as nat) as int;
    let places = pow10(f) as int;
    assert(rest * places == 1_000_000);
    assert(mantissa * 1_000_000 <= i64::MAX * places <==> mantissa * rest <= i64::MAX)
        by (nonlinear_arith)
        requires
            rest * places == 1_000_000,
            places > 0,
    {
        assert(mantissa * 1_000_000 == (mantissa * rest) * places);
    }
    pow10_grows(0, (6 - f) as nat);
    assert(0 < mantissa <==> 0 < mantissa * rest) by (nonlinear_arith)
        requires
            rest > 0,
    ;
}

/// Instants are ordered: of two, one is later or they are the same, never both.
pub proof fn later_is_a_total_order(a: TimeScalar, b: TimeScalar, c: TimeScalar)
    ensures
        !later(a, a),
        later(a, b) || later(b, a) || a == b,
        !(later(a, b) && later(b, a)),
        later(a, b) && later(b, c) ==> later(a, c),
{
}

/// A reading of the clock is what `current_time` gave, and nothing else.
pub(crate) proof fn readings_are_given_by_the_clock(now: TimeScalar)
    ensures
        clock_reads(now) <==> call_ensures(current_time, (), now),
{
}

/// Seconds count first, and nanoseconds within one second.
pub proof fn later_goes_by_seconds_first(a: TimeScalar, b: TimeScalar)
    ensures
        a.seconds > b.seconds ==> later(a, b),
        a.seconds < b.seconds ==> !later(a, b),
        a.seconds == b.seconds ==> (later(a, b) <==> a.nanos > b.nanos),
{
}

/// Digits are read in the decimal system: appending digits shifts what stands before
/// them, and a single digit counts its distance from `0`.
pub proof fn digits_are_decimal(s: Seq<char>, t: Seq<char>, c: char)
    requires
        '0' <= c <= '9',
    ensures
        digits_value(s + t) == digits_value(s) * pow10(t.len()) + digits_value(t),
        digits_value(seq![c]) == c as int - 48,
        digits_value(Seq::empty()) == 0,
        pow10(0) == 1,
        pow10(s.len() + 1) == 10 * pow10(s.len()),
    decreases t.len(),
{
    reveal_with_fuel(digits_value, 2);
    reveal_with_fuel(pow10, 2);
    assert(seq![c].drop_last() =~= Seq::empty());
    if t.len() == 0 {
        assert(s + t =~= s);
        assert(digits_value(s) * 1 == digits_value(s));
    } else {
        let shorter = t.drop_last();
        digits_are_decimal(s, shorter, c);
        assert((s + t).drop_last() =~= s + shorter);
        assert((s + t).last() == t.last());
        let a = digits_value(s) as int;
        let p = pow10(shorter.len()) as int;
        assert(pow10(t.len()) == 10 * p);
        assert(a * (10 * p) == 10 * (a * p)) by (nonlinear_arith);
    }
}

/// Numbers are written in the decimal system, with digits only and no zero in front.
pub proof fn numerals_write_their_number(n: nat)
    ensures
        digits_value(crate::text::numeral(n)) == n,
        crate::text::numeral(n).len() > 0,
        forall|i: int|
            0 <= i < crate::text::numeral(n).len() ==> '0' <= #[trigger] crate::text::numeral(n)[i]
                <= '9',
        n > 0 ==> crate::text::numeral(n)[0] != '0',
    decreases n,
{
    reveal_with_fuel(digits_value, 2);
    let s = crate::text::numeral(n);
    if n < 10 {
        assert(s.drop_last() =~= Seq::empty());
    } else {
        numerals_write_their_number(n / 10);
        assert(s.drop_last() =~= crate::text::numeral(n / 10));
        assert(s[0] == crate::text::numeral(n / 10)[0]);
    }
}

proof fn point_is_no_digit()
    ensures
        "."@.len() == 1,
        "."@[0] == '.',
        !is_digit('.'),
{
    reveal_strlit(".");
}

/// What a plain decimal is made of: digits, and a point and more digits where it has
/// fractional ones.
proof fn plain_parts(s: Seq<char>, whole: Seq<char>, fraction: Seq<char>)
    requires
        whole.len() > 0,
        all_digits(whole),
        all_digits(fraction),
        fraction.len() <= 6,
        s == if fraction.len() == 0 {
            whole
        } else {
            whole + "."@ + fraction
        },
    ensures
        plain_at(s, fraction.len() as int),
        mantissa_at(s, fraction.len() as int) * pow10((6 - fraction.len()) as nat)
            == digits_value(whole) * 1_000_000 + digits_value(fraction) * pow10(
            (6 - fraction.len()) as nat,
        ),
{
    point_is_no_digit();
    let f = fraction.len() as int;
    if f > 0 {
        assert(s.take(s.len() - 1 - f) =~= whole);
        assert(s.skip(s.len() - f) =~= fraction);
    } else {
        assert(fraction =~= Seq::empty());
        assert(whole + fraction =~= whole);
    }
    assert(digits_at(s, f) == whole + fraction);
    digits_are_decimal(whole, fraction, '0');
    pow10_splits(6, fraction.len());
    in_units(1, 0);
    let w = digits_value(whole) as int;
    let d = digits_value(fraction) as int;
    let p = pow10(fraction.len()) as int;
    let q = pow10((6 - fraction.len()) as nat) as int;
    assert((w * p + d) * q == w * 1_000_000 + d * q) by (nonlinear_arith)
        requires
            q * p == 1_000_000,
    ;
}

/// An amount of digits, with at most six more after a point, is accepted exactly when it
/// comes to between one and `i64::MAX` millionths.
pub proof fn amounts_count_millionths(value: Seq<char>, whole: Seq<char>, fraction: Seq<char>)
    requires
        whole.len() > 0,
        fraction.len() <= 6,
        forall|i: int| 0 <= i < whole.len() ==> '0' <= #[trigger] whole[i] <= '9',
        forall|i: int| 0 <= i < fraction.len() ==> '0' <= #[trigger] fraction[i] <= '9',
        trimmed(value) == if fraction.len() == 0 {
            whole
        } else {
            whole + "."@ + fraction
        },
    ensures
        amount_fault(value) is None <==> 0 < digits_value(whole) * 1_000_000 + digits_value(
            fraction,
        ) * pow10((6 - fraction.len()) as nat) <= 9_223_372_036_854_775_807,
        amount_fault(value) matches Some(reason) ==> {
            ||| reason == "amount must be positive and fit the credit ledger range"@
            ||| reason == "amount must be a positive decimal with at most 6 fractional digits"@
        },
{
    let s = trimmed(value);
    plain_parts(s, whole, fraction);
    let f = fraction.len() as int;
    accepted_amounts_are_ledger_millionths(value);
    if amount_fault(value) is None {
        let g = choose|g: int|
            {
                &&& #[trigger] plain_at(s, g)
                &&& 0 < mantissa_at(s, g) * pow10((6 - g) as nat) <= i64::MAX
            };
        plain_at_one_place(s, f, g);
    }
}

/// Whatever is accepted as an amount, or refused for its size, is made of digits, with at
/// most six more after a point.
pub proof fn amounts_are_digits_and_a_point(value: Seq<char>) -> (parts: (Seq<char>, Seq<char>))
    requires
        amount_fault(value) is None || amount_fault(value) == Some(
            "amount must be positive and fit the credit ledger range"@,
        ),
    ensures
        parts.0.len() > 0,
        parts.1.len() <= 6,
        forall|i: int| 0 <= i < parts.0.len() ==> '0' <= #[trigger] parts.0[i] <= '9',
        forall|i: int| 0 <= i < parts.1.len() ==> '0' <= #[trigger] parts.1[i] <= '9',
        trimmed(value) == if parts.1.len() == 0 {
            parts.0
        } else {
            parts.0 + "."@ + parts.1
        },
{
    let s = trimmed(value);
    reveal_strlit("amount must be positive and fit the credit ledger range");
    reveal_strlit("amount must be a positive decimal with at most 6 fractional digits");
    assert("amount must be positive and fit the credit ledger range"@.len()
        != "amount must be a positive decimal with at most 6 fractional digits"@.len());
    assert(is_plain(s));
    let f = choose|f: int| plain_at(s, f);
    point_is_no_digit();
    if f == 0 {
        (s, Seq::empty())
    } else {
        let whole = s.take(s.len() - 1 - f);
        let fraction = s.skip(s.len() - f);
        assert(s =~= whole + "."@ + fraction);
        assert forall|i: int| 0 <= i < whole.len() implies '0' <= #[trigger] whole[i] <= '9' by {
            assert(is_digit(whole[i]));
        }
        assert forall|i: int| 0 <= i < fraction.len() implies '0' <= #[trigger] fraction[i]
            <= '9' by {
            assert(is_digit(fraction[i]));
        }
        (whole, fraction)
    }
}

/// A mantissa and a scale fit the ledger exactly when the number they make is more than
/// zero and at most `i64::MAX` millionths.
pub proof fn the_ledger_holds_millionths(mantissa: int, scale: nat)
    ensures
        within_ledger(mantissa, scale) <==> 0 < mantissa && mantissa * 1_000_000
            <= 9_223_372_036_854_775_807 * pow10(scale),
{
    in_units(mantissa, scale);
}

/// Amounts are refused for their shape or for their size, and for nothing else. What has
/// the right shape and was read is refused for its size only.
pub proof fn amounts_are_refused_for_shape_or_size(value: Seq<char>)
    ensures
        amount_fault(value) matches Some(reason) ==> {
            ||| reason == "amount must be positive and fit the credit ledger range"@
            ||| reason == "amount must be a positive decimal with at most 6 fractional digits"@
        },
        amount_fault(value) is Some && decimal_of_text(trimmed(value)) is None ==> amount_fault(
            value,
        ) == Some("amount must be a positive decimal with at most 6 fractional digits"@),
        amount_fault(value) is Some && decimal_of_text(trimmed(value)) is Some && is_plain(
            trimmed(value),
        ) ==> amount_fault(value) == Some(
            "amount must be positive and fit the credit ledger range"@,
        ),
        !is_plain(trimmed(value)) ==> amount_fault(value) == Some(
            "amount must be a positive decimal with at most 6 fractional digits"@,
        ),
{
}

/// A text is a plain decimal exactly when it is made of digits, or of digits, a point and
/// one to six more digits.
pub proof fn plain_decimals_are_digits_and_a_point(
    s: Seq<char>,
    whole: Seq<char>,
    fraction: Seq<char>,
)
    requires
        whole.len() > 0,
        forall|i: int| 0 <= i < whole.len() ==> '0' <= #[trigger] whole[i] <= '9',
        forall|i: int| 0 <= i < fraction.len() ==> '0' <= #[trigger] fraction[i] <= '9',
    ensures
        is_plain(whole),
        is_plain(whole + "."@ + fraction) <==> 1 <= fraction.len() <= 6,
        is_plain(s) ==> exists|i: int|
            0 <= i <= s.len() && all_digits(#[trigger] s.take(i)) && i > 0 && (i == s.len() || (
            s[i] == '.' && all_digits(s.skip(i + 1)) && 1 <= s.len() - i - 1 <= 6)),
{
    point_is_no_digit();
    assert(plain_at(whole, 0));
    let t = whole + "."@ + fraction;
    let f = fraction.len() as int;
    assert(t[whole.len() as int] == '.');
    if 1 <= f <= 6 {
        plain_parts(t, whole, fraction);
    }
    if is_plain(t) {
        let g = choose|g: int| plain_at(t, g);
        if g == 0 {
            assert(is_digit(t[whole.len() as int]));
        } else {
            let p = t.len() - 1 - g;
            assert(t[p] == '.');
            if p < whole.len() {
                assert(t[p] == whole[p]);
            } else if p > whole.len() {
                assert(t[p] == fraction[p - whole.len() - 1]);
            }
        }
    }
    if is_plain(s) {
        let g = choose|g: int| plain_at(s, g);
        let i = if g == 0 {
            s.len() as int
        } else {
            s.len() - 1 - g
        };
        assert(s.take(s.len() as int) =~= s);
        assert(all_digits(s.take(i)));
        if g > 0 {
            assert(s.skip(i + 1) == s.skip(s.len() - g));
        }
    }
}

} // verus!
