//! The metric computations that both platforms share: the load average, the
//! share of memory in use, and sensor temperatures.

use crate::decimal::{decimal_value, parse_decimal, Decimal};
use crate::text::{slice, split_words, trim, trim_bounds, views, words};
use vstd::prelude::*;

verus! {

/// The one-minute load average that a load-average line states: its first
/// word, read as a number. The words after it, the averages over five and
/// fifteen minutes among them, play no part.
pub open spec fn load_average(line: Seq<char>) -> Option<Decimal> {
    let ws = words(line);
    if ws.len() > 0 {
        decimal_value(ws[0])
    } else {
        None
    }
}

/// Reads the one-minute load average from a load-average line.
pub fn parse_load_average(line: &Vec<char>) -> (r: Option<Decimal>)
    ensures
        r == load_average(line@),
{
    let ws = split_words(line);
    if ws.len() == 0 {
        return None;
    }
    assert(views(ws@)[0] == ws@[0]@);
    parse_decimal(&ws[0])
}

/// The share of memory in use, in percent, given the total amount and the
/// amount that is free, both in the same unit. A free amount larger than the
/// total counts as all free, and a total of zero gives zero.
pub open spec fn usage_percent(total: u64, free: u64) -> Decimal {
    if total == 0 {
        Decimal::zero_value()
    } else if free >= total {
        Decimal::ratio_percent(0, total as nat)
    } else {
        Decimal::ratio_percent((total - free) as nat, total as nat)
    }
}

/// Computes the share of memory in use, in percent.
pub fn memory_usage_percent(total: u64, free: u64) -> (pct: Decimal)
    ensures
        pct == usage_percent(total, free),
        pct.within_percent(),
{
    if total == 0 {
        return Decimal::zero();
    }
    let used = total.saturating_sub(free);
    Decimal::percent_of(used, total)
}

/// The temperature in degrees Celsius that a sensor file states in
/// thousandths of a degree. A file that holds no number, or a number that is
/// not above zero, states none.
pub open spec fn millicelsius_reading(content: Seq<char>) -> Option<Decimal> {
    match decimal_value(trim(content)) {
        Some(raw) => if raw.positive() {
            Some(raw.shifted(3))
        } else {
            None
        },
        None => None,
    }
}

/// Reads a sensor file that states thousandths of a degree Celsius.
pub fn parse_millicelsius(content: &Vec<char>) -> (r: Option<Decimal>)
    ensures
        r == millicelsius_reading(content@),
{
    let (start, end) = trim_bounds(content);
    let body = slice(content, start, end);
    match parse_decimal(&body) {
        Some(raw) => {
            if raw.is_positive() {
                Some(raw.scaled_down(3))
            } else {
                None
            }
        },
        None => None,
    }
}

/// The number that a sysfs attribute file states: its content without the
/// surrounding white space, read as a number.
pub open spec fn attribute_value(content: Option<Seq<char>>) -> Option<Decimal> {
    match content {
        Some(text) => decimal_value(trim(text)),
        None => None,
    }
}

/// Reads the number that a sysfs attribute file states.
pub fn parse_attribute(content: &Option<String>) -> (r: Option<Decimal>)
    ensures
        r == attribute_value(crate::model::text_of(*content)),
{
    match content {
        Some(text) => {
            let chars = crate::text::to_chars(text.as_str());
            let (start, end) = trim_bounds(&chars);
            let body = slice(&chars, start, end);
            parse_decimal(&body)
        },
        None => None,
    }
}

/// The first value that one of `readings` holds.
pub open spec fn first_reading(readings: Seq<Option<Decimal>>) -> Option<Decimal>
    decreases readings.len(),
{
    if readings.len() == 0 {
        None
    } else if readings[0] is Some {
        readings[0]
    } else {
        first_reading(readings.drop_first())
    }
}

/// `first_reading` yields the reading at the least index that holds a value.
pub proof fn lemma_first_reading_at(readings: Seq<Option<Decimal>>, i: int)
    requires
        0 <= i < readings.len(),
        readings[i] is Some,
        forall|k: int| 0 <= k < i ==> #[trigger] readings[k] is None,
    ensures
        first_reading(readings) == readings[i],
    decreases i,
{
    if i > 0 {
        assert(readings[0] is None);
        let rest = readings.drop_first();
        assert forall|k: int| 0 <= k < i - 1 implies #[trigger] rest[k] is None by {
            assert(rest[k] == readings[k + 1]);
        }
        lemma_first_reading_at(rest, i - 1);
    }
}

/// `first_reading` yields nothing where no reading holds a value.
pub proof fn lemma_first_reading_none(readings: Seq<Option<Decimal>>)
    requires
        forall|k: int| 0 <= k < readings.len() ==> #[trigger] readings[k] is None,
    ensures
        first_reading(readings) is None,
    decreases readings.len(),
{
    if readings.len() > 0 {
        assert(readings[0] is None);
        let rest = readings.drop_first();
        assert forall|k: int| 0 <= k < rest.len() implies #[trigger] rest[k] is None by {
            assert(rest[k] == readings[k + 1]);
        }
        lemma_first_reading_none(rest);
    }
}

/// A value that is present, with zero in place of a negative number.
pub open spec fn not_below_zero(value: Option<Decimal>) -> Option<Decimal> {
    match value {
        Some(v) => Some(v.floor_at_zero()),
        None => None,
    }
}

/// A value that is present, divided by ten to the power `places`.
pub open spec fn shifted_by(value: Option<Decimal>, places: nat) -> Option<Decimal> {
    match value {
        Some(v) => Some(v.shifted(places)),
        None => None,
    }
}

/// The share of memory in use lies between 0 and 100 whatever was read, and
/// is zero where the total is zero.
pub proof fn law_usage_within_percent(total: u64, free: u64)
    ensures
        usage_percent(total, free).within_percent(),
        total == 0 ==> usage_percent(total, free) == Decimal::zero_value(),
        free >= total ==> usage_percent(total, free).mantissa == 0,
{
    crate::decimal::lemma_pow10_values();
    if total > 0 {
        if free >= total {
            crate::decimal::law_ratio_within_percent(0, total as nat);
        } else {
            crate::decimal::law_ratio_within_percent((total - free) as nat, total as nat);
        }
    }
}

/// A sensor that states zero, or less, states no temperature: no reading
/// is ever zero degrees for want of a sensor.
pub proof fn law_empty_sensor_is_absent(content: Seq<char>)
    requires
        decimal_value(trim(content)) matches Some(raw) ==> raw.mantissa <= 0,
    ensures
        millicelsius_reading(content) is None,
{
}

/// A sensor that states a number above zero states that many thousandths
/// of a degree: the digits are kept and the point moves by three places.
pub proof fn law_sensor_reading(content: Seq<char>, raw: Decimal)
    requires
        decimal_value(trim(content)) == Some(raw),
        raw.mantissa > 0,
    ensures
        millicelsius_reading(content) == Some(raw.shifted(3)),
        crate::decimal::is_quotient(raw.shifted(3), raw, 3),
{
    crate::decimal::law_shift_divides_exactly(raw, 3);
}

} // verus!
