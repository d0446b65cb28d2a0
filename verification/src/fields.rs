//! Extraction of named numeric fields and of state tokens from the
//! line-oriented output of system tools.

use crate::decimal::{
    decimal_value, fraction_digits, integer_digits, numeral_digits, parse_decimal, unsigned_part,
    Decimal, MAX_FRACTION_DIGITS,
};
use crate::error::{BatteryError, BatteryErrorView};
use crate::text::{
    ascii_lowercase, chars_equal, contains, contains_chars, first_match, has_word, is_unit_char,
    is_whitespace,
    lemma_first_match, lemma_word_alone, lemma_words_concat, lemma_words_skip_gap, lines,
    occurs_at_index, skip_leading,
    skip_trailing, slice, split_lines, split_words, starts_with, to_ascii_lowercase, to_chars,
    trim, trim_bounds, trim_end_of, trim_start_of, views, words, CharClass,
};
use vstd::prelude::*;

verus! {

/// How a line is tested for a pattern.
#[derive(Clone, Copy, Debug)]
pub enum LineTest {
    /// The pattern stands somewhere in the line.
    Contains,
    /// The line begins with the pattern.
    StartsWith,
    /// The line begins with the pattern once its leading white space is set
    /// aside.
    StartsWithIndented,
    /// The line begins with the pattern once the white space at both of its
    /// ends is set aside.
    StartsWithTrimmed,
}

impl LineTest {
    /// Whether `line` passes the test for `pattern`.
    pub open spec fn holds(self, line: Seq<char>, pattern: Seq<char>) -> bool {
        match self {
            LineTest::Contains => contains(line, pattern),
            LineTest::StartsWith => starts_with(line, pattern),
            LineTest::StartsWithIndented => starts_with(
                trim_start_of(line, CharClass::Whitespace),
                pattern,
            ),
            LineTest::StartsWithTrimmed => starts_with(trim(line), pattern),
        }
    }

    /// Decides whether `line` passes the test for `pattern`.
    pub fn check(&self, line: &Vec<char>, pattern: &Vec<char>) -> (b: bool)
        ensures
            b == self.holds(line@, pattern@),
    {
        match self {
            LineTest::Contains => contains_chars(line, pattern),
            LineTest::StartsWith => occurs_at_index(line, pattern, 0),
            LineTest::StartsWithIndented => {
                let start = skip_leading(line, 0, line.len(), CharClass::Whitespace);
                let rest = slice(line, start, line.len());
                assert(line@.subrange(0, line.len() as int) == line@);
                occurs_at_index(&rest, pattern, 0)
            },
            LineTest::StartsWithTrimmed => {
                let (start, end) = trim_bounds(line);
                let rest = slice(line, start, end);
                occurs_at_index(&rest, pattern, 0)
            },
        }
    }
}

/// The first of `ls` that passes `test` for `pattern`.
pub open spec fn first_line(ls: Seq<Seq<char>>, test: LineTest, pattern: Seq<char>) -> Option<
    Seq<char>,
>
    decreases ls.len(),
{
    if ls.len() == 0 {
        None
    } else if test.holds(ls[0], pattern) {
        Some(ls[0])
    } else {
        first_line(ls.drop_first(), test, pattern)
    }
}

/// `first_line` yields the line at the least index that passes the test.
pub proof fn lemma_first_line_at(ls: Seq<Seq<char>>, test: LineTest, pattern: Seq<char>, i: int)
    requires
        0 <= i < ls.len(),
        test.holds(ls[i], pattern),
        forall|k: int| 0 <= k < i ==> !test.holds(#[trigger] ls[k], pattern),
    ensures
        first_line(ls, test, pattern) == Some(ls[i]),
    decreases i,
{
    if i > 0 {
        assert(!test.holds(ls[0], pattern));
        let rest = ls.drop_first();
        assert forall|k: int| 0 <= k < i - 1 implies !test.holds(#[trigger] rest[k], pattern) by {
            assert(rest[k] == ls[k + 1]);
        }
        lemma_first_line_at(rest, test, pattern, i - 1);
    }
}

/// `first_line` yields nothing where no line passes the test.
pub proof fn lemma_first_line_none(ls: Seq<Seq<char>>, test: LineTest, pattern: Seq<char>)
    requires
        forall|k: int| 0 <= k < ls.len() ==> !test.holds(#[trigger] ls[k], pattern),
    ensures
        first_line(ls, test, pattern) is None,
    decreases ls.len(),
{
    if ls.len() > 0 {
        assert(!test.holds(ls[0], pattern));
        let rest = ls.drop_first();
        assert forall|k: int| 0 <= k < rest.len() implies !test.holds(#[trigger] rest[k], pattern) by {
            assert(rest[k] == ls[k + 1]);
        }
        lemma_first_line_none(rest, test, pattern);
    }
}

/// Finds the first of `ls` that passes `test` for `pattern`.
pub fn find_line(ls: &Vec<Vec<char>>, test: LineTest, pattern: &Vec<char>) -> (r: Option<usize>)
    ensures
        match r {
            Some(i) => i < ls.len() && test.holds(ls@[i as int]@, pattern@) && first_line(
                views(ls@),
                test,
                pattern@,
            ) == Some(ls@[i as int]@),
            None => first_line(views(ls@), test, pattern@) is None,
        },
{
    let mut i: usize = 0;
    while i < ls.len()
        invariant
            i <= ls.len(),
            forall|k: int| 0 <= k < i ==> !test.holds(#[trigger] views(ls@)[k], pattern@),
        decreases ls.len() - i,
    {
        if test.check(&ls[i], pattern) {
            proof {
                assert(views(ls@)[i as int] == ls@[i as int]@);
                lemma_first_line_at(views(ls@), test, pattern@, i as int);
            }
            return Some(i);
        }
        assert(views(ls@)[i as int] == ls@[i as int]@);
        i += 1;
    }
    proof {
        lemma_first_line_none(views(ls@), test, pattern@);
    }
    None
}

/// The number that `word` denotes once the unit behind it is removed: the
/// percent signs and letters at its end.
pub open spec fn number_in(word: Seq<char>) -> Option<Decimal> {
    decimal_value(trim_end_of(word, CharClass::Unit))
}

/// Reads `word` as a number, the unit behind it aside.
pub fn parse_number(word: &Vec<char>) -> (r: Option<Decimal>)
    ensures
        r == number_in(word@),
{
    let end = skip_trailing(word, 0, word.len(), CharClass::Unit);
    let numeral = slice(word, 0, end);
    assert(word@.subrange(0, word.len() as int) == word@);
    parse_decimal(&numeral)
}

/// The number denoted by the first of `ws` that denotes one.
pub open spec fn first_number(ws: Seq<Seq<char>>) -> Option<Decimal>
    decreases ws.len(),
{
    if ws.len() == 0 {
        None
    } else if number_in(ws[0]) is Some {
        number_in(ws[0])
    } else {
        first_number(ws.drop_first())
    }
}

/// `first_number` yields the number of the word at the least index that
/// denotes one.
pub proof fn lemma_first_number_at(ws: Seq<Seq<char>>, j: int)
    requires
        0 <= j < ws.len(),
        number_in(ws[j]) is Some,
        forall|k: int| 0 <= k < j ==> number_in(#[trigger] ws[k]) is None,
    ensures
        first_number(ws) == number_in(ws[j]),
    decreases j,
{
    if j > 0 {
        assert(number_in(ws[0]) is None);
        let rest = ws.drop_first();
        assert forall|k: int| 0 <= k < j - 1 implies number_in(#[trigger] rest[k]) is None by {
            assert(rest[k] == ws[k + 1]);
        }
        lemma_first_number_at(rest, j - 1);
    }
}

/// `first_number` yields nothing where no word denotes a number.
pub proof fn lemma_first_number_none(ws: Seq<Seq<char>>)
    requires
        forall|k: int| 0 <= k < ws.len() ==> number_in(#[trigger] ws[k]) is None,
    ensures
        first_number(ws) is None,
    decreases ws.len(),
{
    if ws.len() > 0 {
        assert(number_in(ws[0]) is None);
        let rest = ws.drop_first();
        assert forall|k: int| 0 <= k < rest.len() implies number_in(#[trigger] rest[k]) is None by {
            assert(rest[k] == ws[k + 1]);
        }
        lemma_first_number_none(rest);
    }
}

/// Finds the first of `ws` that denotes a number, and reads it.
pub fn find_number(ws: &Vec<Vec<char>>) -> (r: Option<Decimal>)
    ensures
        r == first_number(views(ws@)),
        r matches Some(d) ==> d.scale <= MAX_FRACTION_DIGITS,
{
    let mut j: usize = 0;
    while j < ws.len()
        invariant
            j <= ws.len(),
            forall|k: int| 0 <= k < j ==> number_in(#[trigger] views(ws@)[k]) is None,
        decreases ws.len() - j,
    {
        let parsed = parse_number(&ws[j]);
        assert(views(ws@)[j as int] == ws@[j as int]@);
        if parsed.is_some() {
            proof {
                lemma_first_number_at(views(ws@), j as int);
            }
            return parsed;
        }
        j += 1;
    }
    proof {
        lemma_first_number_none(views(ws@));
    }
    None
}

/// The value of the field `field` in `document`: the first number on the
/// first line in which the field's label occurs.
pub open spec fn field_value(document: Seq<char>, field: Seq<char>) -> Option<Decimal> {
    match first_line(lines(document), LineTest::Contains, field) {
        Some(line) => first_number(words(line)),
        None => None,
    }
}

/// The error that reports `field` as missing or not a number.
pub open spec fn field_error(field: Seq<char>) -> BatteryErrorView {
    BatteryErrorView::ParseError { field, value: "not found or invalid"@ }
}

/// Builds the error that reports `field` as missing or not a number.
pub fn missing_field(field: &str) -> (e: BatteryError)
    ensures
        e@ == field_error(field@),
{
    BatteryError::ParseError { field: field.to_owned(), value: "not found or invalid".to_owned() }
}

/// Extracts the numeric field `field_name` from `document`.
///
/// Only the first line that contains the label is consulted. On that line the
/// first word that is a number, once the unit behind it is removed, is the
/// value. A missing label and a line without a number are reported alike.
pub fn parse_field(document: &str, field_name: &str) -> (r: Result<Decimal, BatteryError>)
    ensures
        match field_value(document@, field_name@) {
            Some(value) => r matches Ok(v) && v == value,
            None => r matches Err(e) && e@ == field_error(field_name@),
        },
{
    let text = to_chars(document);
    let label = to_chars(field_name);
    match read_field(&text, &label) {
        Some(value) => Ok(value),
        None => Err(missing_field(field_name)),
    }
}

/// Reads the field `field` of `document`.
pub fn read_field(document: &Vec<char>, field: &Vec<char>) -> (r: Option<Decimal>)
    ensures
        r == field_value(document@, field@),
        r matches Some(d) ==> d.scale <= MAX_FRACTION_DIGITS,
{
    let ls = split_lines(document);
    match find_line(&ls, LineTest::Contains, field) {
        Some(i) => {
            let ws = split_words(&ls[i]);
            find_number(&ws)
        },
        None => None,
    }
}

/// For every document: if line `i` is the first that contains the label, and
/// word `j` of that line is its first that denotes a number, then the field's
/// value is that number, whatever else the document holds.
pub proof fn law_field_value_found(document: Seq<char>, field: Seq<char>, i: int, j: int)
    requires
        0 <= i < lines(document).len(),
        contains(lines(document)[i], field),
        forall|k: int| 0 <= k < i ==> !contains(#[trigger] lines(document)[k], field),
        0 <= j < words(lines(document)[i]).len(),
        number_in(words(lines(document)[i])[j]) is Some,
        forall|k: int| 0 <= k < j ==> number_in(#[trigger] words(lines(document)[i])[k]) is None,
    ensures
        field_value(document, field) == number_in(words(lines(document)[i])[j]),
{
    lemma_first_line_at(lines(document), LineTest::Contains, field, i);
    lemma_first_number_at(words(lines(document)[i]), j);
}

/// For every document of which no line contains the label, the field has no
/// value.
pub proof fn law_field_value_missing(document: Seq<char>, field: Seq<char>)
    requires
        forall|k: int| 0 <= k < lines(document).len() ==> !contains(
            #[trigger] lines(document)[k],
            field,
        ),
    ensures
        field_value(document, field) is None,
{
    lemma_first_line_none(lines(document), LineTest::Contains, field);
}

/// A numeral with a unit written directly behind it, such as `%`, `C` or
/// `mWh`, denotes what it denotes without the unit, digit for digit.
pub proof fn law_unit_is_stripped(numeral: Seq<char>, unit: Seq<char>)
    requires
        numeral.len() > 0 ==> !is_unit_char(numeral.last()),
        forall|i: int| 0 <= i < unit.len() ==> is_unit_char(#[trigger] unit[i]),
    ensures
        number_in(numeral + unit) == decimal_value(numeral),
    decreases unit.len(),
{
    let word = numeral + unit;
    if unit.len() == 0 {
        assert(word == numeral);
    } else {
        assert(word.last() == unit.last());
        assert(word.drop_last() == numeral + unit.drop_last());
        law_unit_is_stripped(numeral, unit.drop_last());
    }
}

/// A numeral ends in no unit: what is read as a number is read whole.
pub proof fn law_numeral_is_read_whole(numeral: Seq<char>)
    requires
        decimal_value(numeral) is Some,
    ensures
        number_in(numeral) == decimal_value(numeral),
{
    let body = unsigned_part(numeral);
    let digits = numeral_digits(body);
    lemma_first_match(body, CharClass::Char('.'));
    let point = first_match(body, CharClass::Char('.'));
    let last = numeral.last();
    if point < body.len() && fraction_digits(body).len() == 0 {
        assert(last == body[point]);
    } else if point < body.len() {
        assert(last == fraction_digits(body).last());
        assert(last == digits[digits.len() - 1]);
    } else {
        assert(integer_digits(body) == body);
        assert(digits == body);
        assert(last == digits[digits.len() - 1]);
    }
    law_unit_is_stripped(numeral, Seq::empty());
    assert(numeral + Seq::<char>::empty() == numeral);
}

/// Whether `line` is a state line that reports charging: it passes `test` for
/// `label`, and one of its words is exactly `charging`. A word that merely
/// contains `charging`, such as `discharging`, does not count.
pub open spec fn charging_line(line: Seq<char>, test: LineTest, label: Seq<char>) -> bool {
    test.holds(line, label) && words(line).contains("charging"@)
}

/// Whether some line of `text` is a state line that reports charging.
pub open spec fn charging_state(text: Seq<char>, test: LineTest, label: Seq<char>) -> bool {
    exists|i: int| 0 <= i < lines(text).len() && charging_line(#[trigger] lines(text)[i], test, label)
}

/// Decides whether some line of `text` is a state line that reports
/// charging.
pub fn has_charging_state(text: &Vec<char>, test: LineTest, label: &Vec<char>) -> (b: bool)
    ensures
        b == charging_state(text@, test, label@),
{
    let ls = split_lines(text);
    let charging = to_chars("charging");
    let mut i: usize = 0;
    while i < ls.len()
        invariant
            i <= ls.len(),
            views(ls@) == lines(text@),
            charging@ == "charging"@,
            forall|k: int| 0 <= k < i ==> !charging_line(#[trigger] lines(text@)[k], test, label@),
        decreases ls.len() - i,
    {
        assert(views(ls@)[i as int] == ls@[i as int]@);
        if test.check(&ls[i], label) {
            let ws = split_words(&ls[i]);
            if has_word(&ws, &charging) {
                return true;
            }
        }
        i += 1;
    }
    false
}

/// Whether the report of `upower` on a device says that the battery is
/// charging: some line begins, leading white space aside, with `state:`, and
/// has `charging` as one of its words.
pub open spec fn upower_charging(text: Seq<char>) -> bool {
    charging_state(text, LineTest::StartsWithIndented, "state:"@)
}

/// Decides whether the report of `upower` on a device says that the battery
/// is charging.
pub fn contains_charging_state(text: &str) -> (b: bool)
    ensures
        b == upower_charging(text@),
{
    let chars = to_chars(text);
    let label = to_chars("state:");
    has_charging_state(&chars, LineTest::StartsWithIndented, &label)
}

/// Whether a battery status says that the battery is charging: the whole
/// status, the white space around it aside, is `charging`, in capital or
/// small ASCII letters. A status that only holds the word, such as
/// `Not charging` or `Discharging`, says no such thing.
pub open spec fn charging_status(status: Seq<char>) -> bool {
    ascii_lowercase(trim(status)) == "charging"@
}

/// Decides whether a battery status says that the battery is charging.
pub fn is_charging_status(status: &str) -> (b: bool)
    ensures
        b == charging_status(status@),
{
    let chars = to_chars(status);
    let (start, end) = trim_bounds(&chars);
    let state = slice(&chars, start, end);
    let lower = to_ascii_lowercase(&state);
    chars_equal(&lower, &to_chars("charging"))
}

/// The word `discharging` is not the word `charging`, and no label that
/// ends in a colon is: a line whose words are such labels and the state
/// `discharging` reports no charging, whichever test and pattern pick the
/// state lines.
pub proof fn law_discharging_is_not_charging(
    line: Seq<char>,
    test: LineTest,
    pattern: Seq<char>,
)
    requires
        forall|j: int|
            0 <= j < words(line).len() ==> #[trigger] words(line)[j] == "discharging"@ || (
            words(line)[j].len() > 0 && words(line)[j].last() == ':'),
    ensures
        !charging_line(line, test, pattern),
{
    reveal_strlit("discharging");
    reveal_strlit("charging");
    assert("discharging"@.len() != "charging"@.len());
    assert("charging"@.last() == 'g');
    assert forall|j: int| 0 <= j < words(line).len() implies #[trigger] words(line)[j]
        != "charging"@ by {}
}

/// A state line that reads `discharging` behind its label reports no
/// charging, however far it is indented, however much white space stands
/// between label and state, and whatever white space follows.
pub proof fn law_discharging_line(
    indent: Seq<char>,
    label: Seq<char>,
    gap: Seq<char>,
    tail: Seq<char>,
    test: LineTest,
    pattern: Seq<char>,
)
    requires
        forall|i: int| 0 <= i < indent.len() ==> is_whitespace(#[trigger] indent[i]),
        label.len() > 0,
        label.last() == ':',
        forall|i: int| 0 <= i < label.len() ==> !is_whitespace(#[trigger] label[i]),
        gap.len() > 0,
        forall|i: int| 0 <= i < gap.len() ==> is_whitespace(#[trigger] gap[i]),
        forall|i: int| 0 <= i < tail.len() ==> is_whitespace(#[trigger] tail[i]),
    ensures
        words(indent + label + gap + "discharging"@ + tail) == seq![label, "discharging"@],
        !charging_line(indent + label + gap + "discharging"@ + tail, test, pattern),
{
    reveal_strlit("discharging");
    let state = "discharging"@;
    let none = Seq::<char>::empty();
    let line = indent + label + gap + state + tail;
    assert(line == indent + (label + (gap + (state + tail))));
    lemma_words_skip_gap(indent, label + (gap + (state + tail)));
    assert((gap + (state + tail))[0] == gap[0]);
    lemma_words_concat(label, gap + (state + tail));
    lemma_word_alone(label);
    lemma_words_skip_gap(gap, state + tail);
    if tail.len() > 0 {
        assert(is_whitespace(tail[0]));
    }
    lemma_words_concat(state, tail);
    assert forall|i: int| 0 <= i < state.len() implies !is_whitespace(#[trigger] state[i]) by {}
    lemma_word_alone(state);
    lemma_words_skip_gap(tail, none);
    assert(tail + none == tail);
    lemma_word_alone(none);
    assert(words(line) == seq![label, state]);
    assert forall|j: int| 0 <= j < words(line).len() implies #[trigger] words(line)[j] == state
        || (words(line)[j].len() > 0 && words(line)[j].last() == ':') by {}
    law_discharging_is_not_charging(line, test, pattern);
}

/// A text none of whose lines reports charging does not report charging.
pub proof fn law_no_charging_line(text: Seq<char>, test: LineTest, label: Seq<char>)
    requires
        forall|i: int| 0 <= i < lines(text).len() ==> !charging_line(
            #[trigger] lines(text)[i],
            test,
            label,
        ),
    ensures
        !charging_state(text, test, label),
{
}

/// A line made of a label, white space, a numeral and whatever follows it
/// after more white space states the numeral's number, however much white
/// space stands between them and whatever the rest of the line holds. The
/// label may be several words, as long as none of them is a number.
pub proof fn law_labelled_line(
    label: Seq<char>,
    gap: Seq<char>,
    numeral: Seq<char>,
    tail: Seq<char>,
)
    requires
        forall|j: int| 0 <= j < words(label).len() ==> number_in(#[trigger] words(label)[j]) is None,
        gap.len() > 0,
        forall|i: int| 0 <= i < gap.len() ==> is_whitespace(#[trigger] gap[i]),
        numeral.len() > 0,
        forall|i: int| 0 <= i < numeral.len() ==> !is_whitespace(#[trigger] numeral[i]),
        number_in(numeral) is Some,
        tail.len() > 0 ==> is_whitespace(tail[0]),
    ensures
        first_number(words(label + gap + numeral + tail)) == number_in(numeral),
{
    let line = label + gap + numeral + tail;
    let after = gap + (numeral + tail);
    assert(line == label + after);
    assert(after[0] == gap[0]);
    lemma_words_concat(label, after);
    lemma_words_skip_gap(gap, numeral + tail);
    lemma_words_concat(numeral, tail);
    lemma_word_alone(numeral);
    let ws = words(line);
    let n = words(label).len() as int;
    assert(ws == words(label) + (seq![numeral] + words(tail)));
    assert(ws[n] == numeral);
    assert forall|k: int| 0 <= k < n implies number_in(#[trigger] ws[k]) is None by {
        assert(ws[k] == words(label)[k]);
    }
    lemma_first_number_at(ws, n);
}

} // verus!
