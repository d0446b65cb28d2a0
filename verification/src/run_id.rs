//! Identifiers of measurement runs: how they are made, and how the parts of
//! one are read back.

use crate::chain::Platform;
use crate::text::{span_texts, split, split_spans, to_chars, CharClass, Span};
use vstd::prelude::*;

verus! {

/// The text of the UTC date and time that lies `seconds` after the Unix
/// epoch, as the pattern `%Y-%m-%dT%H:%M:%SZ` writes it: for the years 0 to
/// 9999 that is `YYYY-MM-DDTHH:MM:SSZ`. There is no text for a moment that
/// no calendar date stands for.
pub uninterp spec fn utc_timestamp_text(seconds: i64) -> Option<Seq<char>>;

/// Writes the moment `seconds` after the Unix epoch as a UTC date and time.
///
/// This is `chrono::DateTime::from_timestamp` followed by
/// `DateTime::format` with the pattern `%Y-%m-%dT%H:%M:%SZ`, written out by
/// `DelayedFormat::write_to`. The contract claims only that the text, and
/// whether there is one, depends on `seconds` alone.
#[verifier::external_body]
fn format_utc(seconds: i64) -> (r: Option<String>)
    ensures
        match r {
            Some(text) => utc_timestamp_text(seconds) == Some(text@),
            None => utc_timestamp_text(seconds) is None,
        },
{
    let moment = chrono::DateTime::from_timestamp(seconds, 0)?;
    let mut text = String::new();
    moment.format("%Y-%m-%dT%H:%M:%SZ").write_to(&mut text).ok()?;
    Some(text)
}

impl Platform {
    /// The name of the operating system as it stands in a run identifier.
    pub open spec fn os_label(self) -> Seq<char> {
        match self {
            Platform::FreeBsd => "FreeBSD"@,
            Platform::Linux => "Linux"@,
            Platform::Unsupported => "Unknown"@,
        }
    }

    /// Returns the name of the operating system as it stands in a run
    /// identifier.
    pub fn os_name(&self) -> (name: &'static str)
        ensures
            name@ == self.os_label(),
    {
        match self {
            Platform::FreeBsd => "FreeBSD",
            Platform::Linux => "Linux",
            Platform::Unsupported => "Unknown",
        }
    }
}

/// The text of an optional string slice.
pub open spec fn workload_text(workload: Option<&str>) -> Option<Seq<char>> {
    match workload {
        Some(w) => Some(w@),
        None => None,
    }
}

/// The identifier of a run: time, host, operating system and configuration,
/// and the workload if there is one, with an underscore between each two.
pub open spec fn run_id_text(
    time: Seq<char>,
    hostname: Seq<char>,
    os: Seq<char>,
    config: Seq<char>,
    workload: Option<Seq<char>>,
) -> Seq<char> {
    let base = time + seq!['_'] + hostname + seq!['_'] + os + seq!['_'] + config;
    match workload {
        Some(w) => base + seq!['_'] + w,
        None => base,
    }
}

/// Makes the identifier of a run from its parts.
pub fn format_run_id(time: &str, hostname: &str, os: &str, config: &str, workload: Option<&str>) -> (id:
    String)
    ensures
        id@ == run_id_text(time@, hostname@, os@, config@, workload_text(workload)),
{
    proof {
        reveal_strlit("_");
    }
    let mut id = time.to_owned();
    id.append("_");
    id.append(hostname);
    id.append("_");
    id.append(os);
    id.append("_");
    id.append(config);
    if let Some(w) = workload {
        id.append("_");
        id.append(w);
    }
    id
}

/// Makes the identifier of a run that starts `seconds` after the Unix epoch
/// on the host `hostname`.
///
/// There is an identifier exactly where the moment can be written as a date.
pub fn generate_run_id(
    seconds: i64,
    hostname: &str,
    platform: Platform,
    config: &str,
    workload: Option<&str>,
) -> (r: Option<String>)
    ensures
        match utc_timestamp_text(seconds) {
            Some(time) => r matches Some(id) && id@ == run_id_text(
                time,
                hostname@,
                platform.os_label(),
                config@,
                workload_text(workload),
            ),
            None => r is None,
        },
{
    match format_utc(seconds) {
        Some(time) => Some(
            format_run_id(time.as_str(), hostname, platform.os_name(), config, workload),
        ),
        None => None,
    }
}

/// What the parts of a run identifier say of the run: configuration,
/// workload and operating system.
pub ghost struct RunParts {
    pub config: Seq<char>,
    pub workload: Option<Seq<char>>,
    pub os: Seq<char>,
}

/// The parts of the run that `run_id` names. An identifier of four parts
/// between underscores names the operating system in its third and the
/// configuration in its fourth part; one of five parts names the workload in
/// its fifth as well. Any other identifier says nothing: configuration and
/// operating system are then `unknown`.
pub open spec fn run_parts(run_id: Seq<char>) -> RunParts {
    let parts = split(run_id, CharClass::Char('_'));
    if parts.len() == 4 {
        RunParts { config: parts[3], workload: None, os: parts[2] }
    } else if parts.len() == 5 {
        RunParts { config: parts[3], workload: Some(parts[4]), os: parts[2] }
    } else {
        RunParts { config: "unknown"@, workload: None, os: "unknown"@ }
    }
}

/// Reads configuration, workload and operating system from a run identifier.
pub fn parse_run_id_fallback(run_id: &str) -> (r: (String, Option<String>, String))
    ensures
        r.0@ == run_parts(run_id@).config,
        crate::model::text_of(r.1) == run_parts(run_id@).workload,
        r.2@ == run_parts(run_id@).os,
{
    let chars = to_chars(run_id);
    let spans = split_spans(&chars, CharClass::Char('_'));
    let n = spans.len();
    assert(span_texts(chars@, spans@).len() == n);
    if n == 4 || n == 5 {
        let config = part(run_id, &chars, &spans, 3);
        let os = part(run_id, &chars, &spans, 2);
        let workload = if n == 5 {
            Some(part(run_id, &chars, &spans, 4))
        } else {
            None
        };
        (config, workload, os)
    } else {
        ("unknown".to_owned(), None, "unknown".to_owned())
    }
}

/// Copies the part of `text` that the span number `i` covers.
fn part(text: &str, chars: &Vec<char>, spans: &Vec<Span>, i: usize) -> (piece: String)
    requires
        chars@ == text@,
        crate::text::spans_within(spans@, chars@.len()),
        i < spans.len(),
    ensures
        piece@ == span_texts(chars@, spans@)[i as int],
{
    let span = spans[i];
    assert(spans@[i as int].within(chars@.len()));
    text.substring_char(span.start, span.end).to_owned()
}

} // verus!
