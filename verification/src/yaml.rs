//! What the library takes from the YAML reader: its error type, its value
//! type, and the conversion of its errors into configuration errors.
use vstd::prelude::*;
use vstd::string::StringExecFns;
use crate::error::ProxyError;
use crate::text::{decimal, decimal_string};

verus! {

/// `serde_yaml::Error`, carried through without looking inside.
#[verifier::external_type_specification]
#[verifier::external_body]
pub struct ExYamlError(serde_yaml::Error);

/// `serde_yaml::Value`, carried through without looking inside.
#[verifier::external_type_specification]
#[verifier::external_body]
pub struct ExYamlValue(serde_yaml::Value);

/// The text that a reader error is shown as: what its `Display` impl
/// writes. It depends on the error alone.
pub uninterp spec fn yaml_text(e: serde_yaml::Error) -> Seq<char>;

/// The line and the column that a reader error points at, if it points
/// anywhere. They depend on the error alone.
pub uninterp spec fn yaml_place(e: serde_yaml::Error) -> Option<(usize, usize)>;

/// Calls std's `to_string` on a `serde_yaml::Error`, which renders it
/// through its `Display` impl. The contract gives the text its name,
/// `yaml_text`, and claims nothing else about it.
#[verifier::external_body]
fn yaml_error_text(e: &serde_yaml::Error) -> (text: String)
    ensures
        text@ == yaml_text(*e),
{
    e.to_string()
}

/// Calls `serde_yaml::Error::location` and hands out the line and the column
/// of the location, if the error has one. The contract gives them their name,
/// `yaml_place`, and claims nothing else about them.
#[verifier::external_body]
fn yaml_error_place(e: &serde_yaml::Error) -> (place: Option<(usize, usize)>)
    ensures
        place == yaml_place(*e),
{
    e.location().map(|at| (at.line(), at.column()))
}

/// The reason given for a configuration that could not be read: the
/// reader's text, followed by the line and column where it stopped, if known.
pub open spec fn located_text(text: Seq<char>, place: Option<(usize, usize)>) -> Seq<char> {
    match place {
        Some((line, column)) => text + ", line, "@ + decimal(line as nat) + ", column: "@
            + decimal(column as nat),
        None => text,
    }
}

/// Builds the configuration error for a reader's message and the place it
/// points at.
pub fn located_error(text: String, place: Option<(usize, usize)>) -> (e: ProxyError)
    ensures
        e matches ProxyError::InvalidConfig(why) && why@ == located_text(text@, place),
{
    match place {
        Some((line, column)) => {
            let mut why: String = text;
            why.append(", line, ");
            why.append(decimal_string(line).as_str());
            why.append(", column: ");
            why.append(decimal_string(column).as_str());
            ProxyError::InvalidConfig(why)
        },
        None => ProxyError::InvalidConfig(text),
    }
}

/// Turns a YAML reader error into a configuration error. Its reason is the
/// reader's text for the error, followed by the line and column that the
/// error points at, if it points anywhere.
pub fn map_serde_error(x: serde_yaml::Error) -> (e: ProxyError)
    ensures
        e matches ProxyError::InvalidConfig(why) && why@ == located_text(
            yaml_text(x),
            yaml_place(x),
        ),
{
    let place: Option<(usize, usize)> = yaml_error_place(&x);
    let text: String = yaml_error_text(&x);
    located_error(text, place)
}

} // verus!
