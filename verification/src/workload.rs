//! What the command line needs to know of configuration names and of
//! workload scripts.

use crate::fields::{find_line, first_line, LineTest};
use crate::model::text_of;
use crate::text::{
    char_is_whitespace, contains, contains_chars, extract, is_whitespace, line_spans, lines,
    skip_leading, skip_trailing, span_texts, to_chars, trim, trim_bounds, trim_end_of,
    trim_start_of, views, CharClass,
};
use vstd::prelude::*;

verus! {

/// Whether `name` can name a configuration: it is not empty and holds no
/// white space.
pub open spec fn config_name_ok(name: Seq<char>) -> bool {
    name.len() > 0 && forall|i: int| 0 <= i < name.len() ==> !is_whitespace(#[trigger] name[i])
}

/// Decides whether `name` can name a configuration.
pub fn valid_config_name(name: &str) -> (b: bool)
    ensures
        b == config_name_ok(name@),
{
    let chars = to_chars(name);
    if chars.len() == 0 {
        return false;
    }
    let mut i: usize = 0;
    while i < chars.len()
        invariant
            i <= chars.len(),
            chars@ == name@,
            forall|k: int| 0 <= k < i ==> !is_whitespace(#[trigger] chars@[k]),
        decreases chars.len() - i,
    {
        if char_is_whitespace(chars[i]) {
            return false;
        }
        i += 1;
    }
    true
}

/// `s` without the quotation marks and then the apostrophes at its ends.
pub open spec fn unquoted(s: Seq<char>) -> Seq<char> {
    let inner = trim_end_of(trim_start_of(s, CharClass::Char('"')), CharClass::Char('"'));
    trim_end_of(trim_start_of(inner, CharClass::Char('\'')), CharClass::Char('\''))
}

/// What a workload script says of itself: where the script holds
/// `describe()`, the text that its first `echo` line prints, without the
/// quotes around it.
pub open spec fn workload_description(script: Seq<char>) -> Option<Seq<char>> {
    if !contains(script, "describe()"@) {
        None
    } else {
        match first_line(lines(script), LineTest::StartsWithTrimmed, "echo "@) {
            Some(line) => Some(unquoted(trim(line).skip(5))),
            None => None,
        }
    }
}

/// Reads what a workload script says of itself.
pub fn get_workload_description(script: &str) -> (r: Option<String>)
    ensures
        text_of(r) == workload_description(script@),
{
    proof {
        reveal_strlit("echo ");
    }
    let chars = to_chars(script);
    if !contains_chars(&chars, &to_chars("describe()")) {
        return None;
    }
    let spans = line_spans(&chars);
    let ls = extract(&chars, &spans);
    let i = match find_line(&ls, LineTest::StartsWithTrimmed, &to_chars("echo ")) {
        Some(i) => i,
        None => {
            return None;
        },
    };
    let line = &ls[i];
    assert(views(ls@)[i as int] == line@);
    assert(span_texts(chars@, spans@)[i as int] == spans@[i as int].of(chars@));
    assert(spans@[i as int].within(chars@.len()));
    let (start, end) = trim_bounds(line);
    assert(trim(line@).len() >= 5);
    let text = start + 5;
    assert(line@.subrange(text as int, end as int) == trim(line@).skip(5));
    let a = skip_leading(line, text, end, CharClass::Char('"'));
    let b = skip_trailing(line, a, end, CharClass::Char('"'));
    let c = skip_leading(line, a, b, CharClass::Char('\''));
    let d = skip_trailing(line, c, b, CharClass::Char('\''));
    let line_text = script.substring_char(spans[i].start, spans[i].end);
    Some(line_text.substring_char(c, d).to_owned())
}

} // verus!
