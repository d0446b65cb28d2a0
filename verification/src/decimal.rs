//! Exact decimal numbers and the numerals that denote them.
//!
//! Readings arrive as text in several units. They are kept as exact decimal
//! fractions, so that changing the unit by a power of ten loses nothing.

use crate::text::{find_from, first_match, slice, CharClass};
use vstd::prelude::*;

verus! {

/// The exact decimal number `mantissa / 10^scale`.
#[derive(Clone, Copy, Debug, PartialEq, Eq, Structural)]
pub struct Decimal {
    /// The digits of the number, read as a signed integer.
    pub mantissa: i64,
    /// How many of those digits stand behind the decimal point.
    pub scale: u32,
}

/// The largest number of digits behind the decimal point that a numeral may
/// have.
pub const MAX_FRACTION_DIGITS: u32 = 18;

/// The number of decimal places in which a percentage computed from a ratio
/// is given.
pub const RATIO_SCALE: u32 = 4;

/// Ten to the power `n`.
pub open spec fn pow10(n: nat) -> nat
    decreases n,
{
    if n == 0 {
        1
    } else {
        10 * pow10((n - 1) as nat)
    }
}

/// Whether `c` is one of the digits `0` to `9`.
pub open spec fn is_digit(c: char) -> bool {
    '0' <= c <= '9'
}

/// The number that the digit `c` stands for; zero for any other character.
pub open spec fn digit_value(c: char) -> nat {
    if is_digit(c) {
        (c as u32 - '0' as u32) as nat
    } else {
        0
    }
}

/// Whether every character of `s` is a digit.
pub open spec fn all_digits(s: Seq<char>) -> bool {
    forall|i: int| 0 <= i < s.len() ==> is_digit(#[trigger] s[i])
}

/// The number that the digit string `s` denotes in base ten.
pub open spec fn digits_value(s: Seq<char>) -> nat
    decreases s.len(),
{
    if s.len() == 0 {
        0
    } else {
        10 * digits_value(s.drop_last()) + digit_value(s.last())
    }
}

/// A digit string denotes at least what any of its prefixes denotes.
pub proof fn lemma_digits_value_prefix(s: Seq<char>, k: int)
    requires
        0 <= k <= s.len(),
    ensures
        digits_value(s.take(k)) <= digits_value(s),
    decreases s.len() - k,
{
    if k == s.len() {
        assert(s.take(k) == s);
    } else {
        lemma_digits_value_prefix(s.drop_last(), k);
        assert(s.drop_last().take(k) == s.take(k));
    }
}

/// Whether `s` begins with a plus or a minus sign.
pub open spec fn has_sign(s: Seq<char>) -> bool {
    s.len() > 0 && (s[0] == '+' || s[0] == '-')
}

/// `s` without its leading sign, if it has one.
pub open spec fn unsigned_part(s: Seq<char>) -> Seq<char> {
    if has_sign(s) {
        s.drop_first()
    } else {
        s
    }
}

/// The digits of an unsigned numeral before its decimal point.
pub open spec fn integer_digits(body: Seq<char>) -> Seq<char> {
    body.subrange(0, first_match(body, CharClass::Char('.')))
}

/// The digits of an unsigned numeral behind its decimal point; empty when it
/// has no point.
pub open spec fn fraction_digits(body: Seq<char>) -> Seq<char> {
    let point = first_match(body, CharClass::Char('.'));
    if 0 <= point < body.len() {
        body.subrange(point + 1, body.len() as int)
    } else {
        Seq::empty()
    }
}

/// All digits of an unsigned numeral, those before the point followed by
/// those behind it.
pub open spec fn numeral_digits(body: Seq<char>) -> Seq<char> {
    integer_digits(body) + fraction_digits(body)
}

/// Whether `s` is a decimal numeral: an optional sign, then digits with at
/// most one decimal point among them, and at least one digit.
pub open spec fn is_numeral(s: Seq<char>) -> bool {
    let digits = numeral_digits(unsigned_part(s));
    digits.len() > 0 && all_digits(digits)
}

/// The number that `s` denotes, if `s` is a numeral whose digits fit: at most
/// `MAX_FRACTION_DIGITS` behind the point, and a magnitude of at most
/// `i64::MAX` once the point is left out.
pub open spec fn decimal_value(s: Seq<char>) -> Option<Decimal> {
    let body = unsigned_part(s);
    let magnitude = digits_value(numeral_digits(body));
    if is_numeral(s) && fraction_digits(body).len() <= MAX_FRACTION_DIGITS && magnitude
        <= i64::MAX {
        Some(
            Decimal {
                mantissa: if s[0] == '-' {
                    (-magnitude) as i64
                } else {
                    magnitude as i64
                },
                scale: fraction_digits(body).len() as u32,
            },
        )
    } else {
        None
    }
}

/// The number that `s` denotes as an unsigned integer: an optional plus sign,
/// then at least one digit and nothing else, with a value of at most
/// `u64::MAX`.
pub open spec fn unsigned_value(s: Seq<char>) -> Option<u64> {
    let body = if s.len() > 0 && s[0] == '+' {
        s.drop_first()
    } else {
        s
    };
    if body.len() > 0 && all_digits(body) && digits_value(body) <= u64::MAX {
        Some(digits_value(body) as u64)
    } else {
        None
    }
}

/// Reads a string of digits as a number.
pub fn parse_digits(s: &Vec<char>) -> (r: Option<u64>)
    ensures
        r == if all_digits(s@) && digits_value(s@) <= u64::MAX {
            Some(digits_value(s@) as u64)
        } else {
            None
        },
{
    let mut value: u64 = 0;
    let mut i: usize = 0;
    assert(s@.take(0) == Seq::<char>::empty());
    while i < s.len()
        invariant
            i <= s.len(),
            all_digits(s@.take(i as int)),
            value == digits_value(s@.take(i as int)),
        decreases s.len() - i,
    {
        let c = s[i];
        if c < '0' || c > '9' {
            assert(!is_digit(s@[i as int]));
            return None;
        }
        let digit: u64 = (c as u32 - '0' as u32) as u64;
        proof {
            let next = s@.take(i + 1);
            assert(next.drop_last() == s@.take(i as int));
            assert(next.last() == c);
            lemma_digits_value_prefix(s@, i + 1);
        }
        if value > (u64::MAX - digit) / 10 {
            return None;
        }
        value = value * 10 + digit;
        i += 1;
    }
    assert(s@.take(s.len() as int) == s@);
    Some(value)
}

/// Reads an unsigned integer.
pub fn parse_unsigned(s: &Vec<char>) -> (r: Option<u64>)
    ensures
        r == unsigned_value(s@),
{
    let n = s.len();
    let start: usize = if n > 0 && s[0] == '+' {
        1
    } else {
        0
    };
    let body = slice(s, start, n);
    proof {
        assert(s@.subrange(0, n as int) == s@);
        if start == 1 {
            assert(s@.subrange(1, n as int) == s@.drop_first());
        }
    }
    if body.len() == 0 {
        return None;
    }
    parse_digits(&body)
}

/// Joins two character vectors.
pub fn concat(a: &Vec<char>, b: &Vec<char>) -> (out: Vec<char>)
    ensures
        out@ == a@ + b@,
{
    let mut out = slice(a, 0, a.len());
    assert(a@.subrange(0, a.len() as int) == a@);
    let mut i: usize = 0;
    while i < b.len()
        invariant
            i <= b.len(),
            out@ == a@ + b@.take(i as int),
        decreases b.len() - i,
    {
        out.push(b[i]);
        assert(b@.take(i + 1) == b@.take(i as int).push(b@[i as int]));
        i += 1;
    }
    assert(b@.take(b.len() as int) == b@);
    out
}

/// Reads a decimal numeral.
pub fn parse_decimal(s: &Vec<char>) -> (r: Option<Decimal>)
    ensures
        r == decimal_value(s@),
{
    let n = s.len();
    let signed = n > 0 && (s[0] == '+' || s[0] == '-');
    let negative = n > 0 && s[0] == '-';
    let start: usize = if signed {
        1
    } else {
        0
    };
    let body = slice(s, start, n);
    proof {
        assert(s@.subrange(0, n as int) == s@);
        if signed {
            assert(s@.subrange(1, n as int) == s@.drop_first());
        }
        assert(body@ == unsigned_part(s@));
        assert(body@.subrange(0, body.len() as int) == body@);
    }
    let point = find_from(&body, 0, CharClass::Char('.'));
    let whole = slice(&body, 0, point);
    let fraction = if point < body.len() {
        slice(&body, point + 1, body.len())
    } else {
        Vec::new()
    };
    assert(whole@ == integer_digits(body@));
    assert(fraction@ == fraction_digits(body@));
    if fraction.len() > MAX_FRACTION_DIGITS as usize {
        return None;
    }
    let digits = concat(&whole, &fraction);
    if digits.len() == 0 {
        return None;
    }
    match parse_digits(&digits) {
        None => None,
        Some(magnitude) => {
            if magnitude > i64::MAX as u64 {
                None
            } else if negative {
                Some(Decimal { mantissa: -(magnitude as i64), scale: fraction.len() as u32 })
            } else {
                Some(Decimal { mantissa: magnitude as i64, scale: fraction.len() as u32 })
            }
        },
    }
}

/// `pow10` grows with its argument.
pub proof fn lemma_pow10_monotonic(a: nat, b: nat)
    requires
        a <= b,
    ensures
        pow10(a) <= pow10(b),
        pow10(a) >= 1,
    decreases b,
{
    if b > a {
        lemma_pow10_monotonic(a, (b - 1) as nat);
    } else if a > 0 {
        lemma_pow10_monotonic((a - 1) as nat, (a - 1) as nat);
    }
}

/// The powers of ten on which the arithmetic of this module relies.
pub proof fn lemma_pow10_values()
    ensures
        pow10(0) == 1,
        pow10(4) == 10_000,
        pow10(17) == 100_000_000_000_000_000,
        pow10(18) == 1_000_000_000_000_000_000,
{
    reveal_with_fuel(pow10, 19);
}

/// Ten to the power `n`, for the exponents whose power fits comfortably in
/// sixty-four bits.
pub(crate) fn power_of_ten(n: u32) -> (p: u64)
    requires
        n <= 18,
    ensures
        p == pow10(n as nat),
{
    let mut p: u64 = 1;
    let mut i: u32 = 0;
    while i < n
        invariant
            i <= n <= 18,
            p == pow10(i as nat),
        decreases n - i,
    {
        proof {
            lemma_pow10_monotonic(i as nat, 17);
            lemma_pow10_values();
        }
        p = p * 10;
        i += 1;
    }
    p
}

impl Decimal {
    /// The number zero.
    pub open spec fn zero_value() -> Decimal {
        Decimal { mantissa: 0, scale: 0 }
    }

    /// Whether the number is greater than zero.
    pub open spec fn positive(self) -> bool {
        self.mantissa > 0
    }

    /// Whether the number lies between 0 and 100, both included.
    pub open spec fn within_percent(self) -> bool {
        0 <= self.mantissa <= 100 * pow10(self.scale as nat)
    }

    /// The number with every negative value replaced by zero.
    pub open spec fn floor_at_zero(self) -> Decimal {
        if self.mantissa < 0 {
            Decimal::zero_value()
        } else {
            self
        }
    }

    /// The number divided by ten to the power `places`.
    pub open spec fn shifted(self, places: nat) -> Decimal {
        Decimal { mantissa: self.mantissa, scale: (self.scale + places) as u32 }
    }

    /// The product of two numbers, where its mantissa and its scale fit.
    pub open spec fn product(self, other: Decimal) -> Option<Decimal> {
        let mantissa = self.mantissa * other.mantissa;
        let scale = self.scale + other.scale;
        if i64::MIN <= mantissa <= i64::MAX && scale <= u32::MAX {
            Some(Decimal { mantissa: mantissa as i64, scale: scale as u32 })
        } else {
            None
        }
    }

    /// The share of `part` in `whole` as a percentage, rounded down to
    /// `RATIO_SCALE` decimal places.
    pub open spec fn ratio_percent(part: nat, whole: nat) -> Decimal {
        Decimal {
            mantissa: ((part * 100 * pow10(RATIO_SCALE as nat)) as int / whole as int) as i64,
            scale: RATIO_SCALE,
        }
    }

    /// Returns zero.
    pub fn zero() -> (d: Decimal)
        ensures
            d == Decimal::zero_value(),
    {
        Decimal { mantissa: 0, scale: 0 }
    }

    /// Decides whether the number is greater than zero.
    pub fn is_positive(&self) -> (b: bool)
        ensures
            b == self.positive(),
    {
        self.mantissa > 0
    }

    /// Decides whether the number lies between 0 and 100.
    pub fn is_percentage(&self) -> (b: bool)
        ensures
            b == self.within_percent(),
    {
        if self.mantissa < 0 {
            false
        } else if self.scale >= 17 {
            proof {
                lemma_pow10_monotonic(17, self.scale as nat);
                lemma_pow10_values();
            }
            true
        } else {
            let unit = power_of_ten(self.scale);
            proof {
                lemma_pow10_monotonic(self.scale as nat, 17);
                lemma_pow10_values();
            }
            self.mantissa as u128 <= 100 * (unit as u128)
        }
    }

    /// Replaces a negative number by zero.
    pub fn clamp_non_negative(self) -> (d: Decimal)
        ensures
            d == self.floor_at_zero(),
            d.mantissa >= 0,
    {
        if self.mantissa < 0 {
            Decimal::zero()
        } else {
            self
        }
    }

    /// The number brought into the range from 0 to 100: a negative number
    /// becomes 0 and one above 100 becomes 100.
    pub open spec fn percent_bounded(self) -> Decimal {
        if self.mantissa < 0 {
            Decimal::zero_value()
        } else if self.within_percent() {
            self
        } else {
            Decimal { mantissa: 100, scale: 0 }
        }
    }

    /// Brings the number into the range from 0 to 100.
    pub fn clamp_percent(self) -> (d: Decimal)
        ensures
            d == self.percent_bounded(),
            d.within_percent(),
    {
        proof {
            lemma_pow10_values();
            lemma_pow10_monotonic(0, self.scale as nat);
        }
        if self.mantissa < 0 {
            Decimal::zero()
        } else if self.is_percentage() {
            self
        } else {
            Decimal { mantissa: 100, scale: 0 }
        }
    }

    /// Divides the number by ten to the power `places`, exactly.
    pub fn scaled_down(self, places: u32) -> (d: Decimal)
        requires
            self.scale + places <= u32::MAX,
        ensures
            d == self.shifted(places as nat),
    {
        Decimal { mantissa: self.mantissa, scale: self.scale + places }
    }

    /// Multiplies two numbers exactly, or reports that the product does not
    /// fit.
    pub fn checked_mul(self, other: Decimal) -> (r: Option<Decimal>)
        ensures
            r == self.product(other),
    {
        let mantissa = match self.mantissa.checked_mul(other.mantissa) {
            Some(m) => m,
            None => {
                return None;
            },
        };
        match self.scale.checked_add(other.scale) {
            Some(scale) => Some(Decimal { mantissa, scale }),
            None => None,
        }
    }

    /// The share of `part` in `whole` as a percentage.
    pub(crate) fn percent_of(part: u64, whole: u64) -> (d: Decimal)
        requires
            part <= whole,
            whole > 0,
        ensures
            d == Decimal::ratio_percent(part as nat, whole as nat),
            d.within_percent(),
    {
        proof {
            lemma_pow10_values();
            assert(part * 1_000_000 / (whole as int) <= 1_000_000) by (nonlinear_arith)
                requires
                    part <= whole,
                    whole > 0,
            ;
            assert(0 <= part * 1_000_000 / (whole as int)) by (nonlinear_arith)
                requires
                    part >= 0,
                    whole > 0,
            ;
        }
        let scaled: u128 = (part as u128) * 1_000_000u128 / (whole as u128);
        Decimal { mantissa: scaled as i64, scale: RATIO_SCALE }
    }
}

/// The power of a sum is the product of the powers.
pub proof fn lemma_pow10_sum(a: nat, b: nat)
    ensures
        pow10(a + b) == pow10(a) * pow10(b),
    decreases b,
{
    if b == 0 {
        assert(pow10(0) == 1);
        assert(pow10(a) * 1 == pow10(a));
    } else {
        let rest = (b - 1) as nat;
        lemma_pow10_sum(a, rest);
        assert(pow10(a + b) == 10 * pow10(a + rest));
        assert(pow10(b) == 10 * pow10(rest));
        assert(10 * (pow10(a) * pow10(rest)) == pow10(a) * (10 * pow10(rest)))
            by (nonlinear_arith);
    }
}

/// Whether `a` denotes the number that `b` denotes, divided by ten to the
/// power `places`.
pub open spec fn is_quotient(a: Decimal, b: Decimal, places: nat) -> bool {
    a.mantissa * pow10(places) * pow10(b.scale as nat) == b.mantissa * pow10(a.scale as nat)
}

/// Moving the decimal point by `places` divides by ten to the power
/// `places`, and loses nothing: milliwatts become watts by three places,
/// microwatt-hours become watt-hours by six.
pub proof fn law_shift_divides_exactly(d: Decimal, places: nat)
    requires
        d.scale + places <= u32::MAX,
    ensures
        is_quotient(d.shifted(places), d, places),
        d.shifted(places).mantissa == d.mantissa,
{
    lemma_pow10_sum(d.scale as nat, places);
    assert(d.mantissa * pow10(places) * pow10(d.scale as nat) == d.mantissa * (pow10(
        d.scale as nat,
    ) * pow10(places))) by (nonlinear_arith);
}

/// Bringing a number into a range changes nothing of a number that lies in
/// it: a charge between 0 and 100 is kept digit for digit, and so is a power
/// draw that is not negative.
pub proof fn law_values_in_range_are_kept(d: Decimal)
    ensures
        d.within_percent() ==> d.percent_bounded() == d,
        d.mantissa >= 0 ==> d.floor_at_zero() == d,
        d.percent_bounded().within_percent(),
        d.floor_at_zero().mantissa >= 0,
{
    lemma_pow10_values();
    lemma_pow10_monotonic(0, d.scale as nat);
}

/// A share given in percent lies between 0 and 100.
pub proof fn law_ratio_within_percent(part: nat, whole: nat)
    requires
        part <= whole <= u64::MAX,
        whole > 0,
    ensures
        Decimal::ratio_percent(part, whole).within_percent(),
        Decimal::ratio_percent(part, whole).mantissa == (part * 1_000_000) as int / whole as int,
{
    lemma_pow10_values();
    assert(part * 100 * 10_000 == part * 1_000_000);
    assert((part * 1_000_000) as int / whole as int <= 1_000_000) by (nonlinear_arith)
        requires
            part <= whole,
            whole > 0,
    ;
    assert(0 <= (part * 1_000_000) as int / whole as int) by (nonlinear_arith)
        requires
            part >= 0,
            whole > 0,
    ;
}

} // verus!
