//! The script widgets: what a script's output is shown as, and which widgets
//! share one run of a script.

use vstd::prelude::*;
use crate::text::{append_decimal, decimal, trim, trimmed};
use crate::widgets::json::{held, json_document, parse_json, string_at};

verus! {

/// View of what a lookup found.
pub open spec fn found_view(found: Option<Option<String>>) -> Option<Option<Seq<char>>> {
    match found {
        Some(Some(s)) => Some(Some(s@)),
        Some(None) => Some(None),
        None => None,
    }
}

/// What an output holds as its text when it is read as JSON: nothing where
/// the output is no JSON; else the string of its member `text`, if it has
/// one.
pub open spec fn text_member(output: Seq<char>) -> Option<Option<Seq<char>>> {
    match json_document(output) {
        Some(document) => Some(held(document.0, "/text"@)),
        None => None,
    }
}

/// What is shown for an output, given what was found in it as JSON: the
/// string that was found; the output as it is where it is JSON without such a
/// string; the output without the white space at its ends where it is no
/// JSON.
pub open spec fn shown_text(output: Seq<char>, found: Option<Option<Seq<char>>>) -> Seq<char> {
    match found {
        Some(Some(text)) => text,
        Some(None) => output,
        None => trimmed(output),
    }
}

/// What is shown for an output, given what was found in it as JSON.
pub fn text_from(output: &str, found: Option<Option<String>>) -> (r: String)
    ensures
        r@ == shown_text(output@, found_view(found)),
{
    match found {
        Some(Some(text)) => text,
        Some(None) => String::from_str(output),
        None => String::from_str(trim(output)),
    }
}

/// What is shown for the output of a script: its member `text` where the
/// output is JSON.
pub fn display_text(output: &str) -> (r: String)
    ensures
        r@ == shown_text(output@, text_member(output@)),
{
    let found = match parse_json(output) {
        Some(value) => Some(string_at(&value, "/text")),
        None => None,
    };
    text_from(output, found)
}

/// The key under which the runs of a script are shared: the command, a dash
/// and the interval in seconds.
pub fn worker_key(command: &str, interval_secs: u64) -> (r: String)
    ensures
        r@ == command@ + "-"@ + decimal(interval_secs as nat),
{
    let mut out = String::from_str(command);
    out.append("-");
    append_decimal(&mut out, interval_secs);
    out
}

/// The text of the widget before the first output.
pub fn waiting_label(prefix: &str) -> (r: String)
    ensures
        r@ == prefix@ + " ..."@,
{
    let mut out = String::from_str(prefix);
    out.append(" ...");
    out
}

/// The text of the widget for an output: the output without the white space
/// at its ends, after the prefix and a blank where there is a prefix.
pub fn script_label(prefix: &str, output: &str) -> (r: String)
    ensures
        r@ == if prefix@.len() == 0 {
            trimmed(output@)
        } else {
            prefix@ + " "@ + trimmed(output@)
        },
{
    if prefix.is_empty() {
        String::from_str(trim(output))
    } else {
        let mut out = String::from_str(prefix);
        out.append(" ");
        out.append(trim(output));
        out
    }
}

} // verus!
