//! Recovering what a program printed from the toolchain's run output.

use vstd::prelude::*;
use vstd::string::*;
use crate::text::{trim, trim_spec};

verus! {

/// The framing that the toolchain's runner prints around a program's output.
pub const RUN_FRAME_PATTERN: &'static str = "Running runner_crate\\s*(.*?)\\s*Run completed successfully";

/// What `regex` finds as the first capture group of the leftmost match of
/// `pattern` in `haystack`; `None` when there is no match or the pattern
/// does not compile.
pub uninterp spec fn regex_first_group(pattern: Seq<char>, haystack: Seq<char>) -> Option<Seq<char>>;

/// The view of an optional string.
pub open spec fn option_view(o: Option<String>) -> Option<Seq<char>> {
    match o {
        Some(s) => Some(s@),
        None => None,
    }
}

/// Relies on `regex::Regex::new` and `regex::Regex::captures`: the text of
/// group 1 of the leftmost match, a function of the pattern and the haystack.
#[verifier::external_body]
fn first_group(pattern: &str, haystack: &str) -> (r: Option<String>)
    ensures
        option_view(r) == regex_first_group(pattern@, haystack@),
{
    match regex::Regex::new(pattern) {
        Ok(re) => match re.captures(haystack) {
            Some(caps) => match caps.get(1) {
                Some(m) => Some(m.as_str().to_string()),
                None => None,
            },
            None => None,
        },
        Err(_) => None,
    }
}

/// The program output chosen from the raw run output and what the framing
/// pattern captured in it: the capture when there is one, else the whole
/// output, trimmed either way.
pub open spec fn select_run_output_spec(raw: Seq<char>, capture: Option<Seq<char>>) -> Seq<char> {
    match capture {
        Some(c) => trim_spec(c),
        None => trim_spec(raw),
    }
}

/// The program output recovered from raw run output.
pub open spec fn normalized_spec(raw: Seq<char>) -> Seq<char> {
    select_run_output_spec(raw, regex_first_group(RUN_FRAME_PATTERN@, raw))
}

/// Chooses the program output from the raw run output and the framing
/// capture found in it.
pub fn select_run_output(raw: &str, capture: &Option<String>) -> (r: String)
    ensures
        r@ == select_run_output_spec(raw@, option_view(*capture)),
{
    match capture {
        Some(c) => trim(c.as_str()),
        None => trim(raw),
    }
}

/// Strips the runner's framing from raw run output and trims the rest;
/// output without the framing is only trimmed.
pub fn normalize_run_output(raw: &str) -> (r: String)
    ensures
        r@ == normalized_spec(raw@),
{
    let capture = first_group(RUN_FRAME_PATTERN, raw);
    select_run_output(raw, &capture)
}

} // verus!
