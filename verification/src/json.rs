//! JSON text.
use vstd::prelude::*;

verus! {

/// The text that `serde_json` prints for the value it reads from a text; `None`
/// where it reads none.
pub uninterp spec fn json_text(s: Seq<char>) -> Option<Seq<char>>;

/// Reads a text with `serde_json::from_str` into a `serde_json::Value` and
/// prints the value with `Value::to_string`. Claims that what comes back is a
/// function of the text alone, named [`json_text`]. Which texts are JSON, and how
/// a value is laid out, is not stated.
#[verifier::external_body]
pub(crate) fn reprint(s: &str) -> (res: Option<String>)
    ensures
        res.deep_view() == json_text(s@),
{
    let value: serde_json::Value = serde_json::from_str(s).ok()?;
    Some(value.to_string())
}

/// A value that was read, or else `null`.
pub open spec fn or_null(parsed: Option<Seq<char>>) -> Seq<char> {
    match parsed {
        Some(text) => text,
        None => "null"@,
    }
}

/// A value that was read, or else `null`.
pub fn value_or_null(parsed: Option<String>) -> (res: String)
    ensures
        res@ == or_null(parsed.deep_view()),
{
    match parsed {
        Some(text) => text,
        None => "null".to_owned(),
    }
}

/// Reads the arguments of a tool call. Text that is no JSON counts as `null`.
pub fn parse_args(arguments: &str) -> (res: String)
    ensures
        res@ == or_null(json_text(arguments@)),
{
    value_or_null(reprint(arguments))
}

/// What a text of arguments stands for: the value that is read from it, or `null` where
/// none is.
pub open spec fn args_in(text: Seq<char>) -> Seq<char> {
    match json_text(text) {
        Some(value) => value,
        None => "null"@,
    }
}

/// Arguments are the value that is read from their text. Where none is read they are
/// `null`, and nothing that is read is lost.
pub proof fn law_arguments_are_what_is_read(parsed: Option<Seq<char>>)
    ensures
        parsed is Some ==> or_null(parsed) == parsed->0,
        parsed is None ==> or_null(parsed) == "null"@,
{
}

} // verus!
