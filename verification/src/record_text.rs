//! The text of a catalogue record file and its parse as TOML.
use vstd::prelude::*;

use toml::Value;

verus! {

/// A parsed TOML document (the `toml` crate's value tree), carried through
/// opaquely to the record readers.
#[verifier::external_type_specification]
#[verifier::external_body]
pub struct ExTomlValue(Value);

/// What `toml` makes of `text`: the document's value tree, or the message of
/// the error that it stops at.
pub uninterp spec fn spec_toml_parse(text: Seq<char>) -> Result<Value, Seq<char>>;

/// A successful parse giving `v`.
pub open spec fn parsed(v: Value) -> Result<Value, Seq<char>> {
    Ok(v)
}

/// A failed parse with the message `m`.
pub open spec fn refused(m: Seq<char>) -> Result<Value, Seq<char>> {
    Err(m)
}

/// Whether `text` is a TOML document that `toml` parses.
pub open spec fn toml_parses(text: Seq<char>) -> bool {
    spec_toml_parse(text) is Ok
}

/// Whether `r` is what `toml` makes of `text`, with an error taken by its
/// message.
pub open spec fn is_toml_parse_of(r: Result<Value, String>, text: Seq<char>) -> bool {
    match r {
        Ok(v) => spec_toml_parse(text) == parsed(v),
        Err(m) => spec_toml_parse(text) == refused(m@),
    }
}

/// Parses `text` as TOML.
///
/// Trusted: calls `toml::Value`'s `FromStr::from_str` (`text.parse()`), which
/// runs `toml::from_str` on the text alone, and turns its error into the
/// error's message. Both the value tree and the message depend on the text
/// alone; the contract names them, `spec_toml_parse`, as functions of it.
#[verifier::external_body]
fn toml_from_str(text: &str) -> (r: Result<Value, String>)
    ensures
        r is Ok <==> spec_toml_parse(text@) is Ok,
        r matches Ok(v) ==> spec_toml_parse(text@) == parsed(v),
        r matches Err(m) ==> spec_toml_parse(text@) == refused(m@),
{
    match text.parse::<Value>() {
        Ok(v) => Ok(v),
        Err(e) => Err(e.to_string()),
    }
}

/// Parses the text of a catalogue record file: the document's value tree when
/// the text is a TOML document, else the parser's error message.
pub fn parse_record(text: &str) -> (r: Result<Value, String>)
    ensures
        r is Ok <==> toml_parses(text@),
        is_toml_parse_of(r, text@),
{
    toml_from_str(text)
}

} // verus!
