//! Parsing a devcontainer configuration out of its file contents.
//!
//! The contents are text: a JSON object, possibly with `//` line comments.
//! Parsing strips the comments (see [`crate::strip`]), decodes the rest as
//! JSON and extracts the top-level string fields `name` and `image`.

use vstd::prelude::*;
use crate::strip::{strip_comments, strip_comments_spec};

verus! {

/// The resolved configuration: a display name and a container image
/// reference, both taken verbatim from the configuration file (or from the
/// built-in default, see [`crate::locate`]).
#[derive(Debug)]
pub struct Devcontainer {
    pub name: String,
    pub image: String,
}

/// Mathematical image of a [`Devcontainer`]: the two fields as character
/// sequences.
pub struct DevcontainerView {
    pub name: Seq<char>,
    pub image: Seq<char>,
}

impl View for Devcontainer {
    type V = DevcontainerView;

    open spec fn view(&self) -> DevcontainerView {
        DevcontainerView { name: self.name@, image: self.image@ }
    }
}

/// Why a configuration could not be produced. `NotFound` and `ReadError`
/// describe failures to obtain the file contents and are reported by the
/// caller that performs the reading; parsing itself reports `ParseError`
/// (the comment-stripped text is not valid JSON) and `MissingField` (`name`
/// or `image` is absent or not a string).
#[derive(Debug, Clone, Copy, PartialEq, Eq, Structural)]
pub enum ConfigError {
    NotFound,
    ReadError,
    ParseError,
    MissingField,
}

/// Whether serde_json accepts the text as a JSON document.
pub uninterp spec fn json_accepts(s: Seq<char>) -> bool;

/// The top-level string field `name` of the JSON document `s`, if the
/// document has one.
pub uninterp spec fn json_name_field(s: Seq<char>) -> Option<Seq<char>>;

/// The top-level string field `image` of the JSON document `s`, if the
/// document has one.
pub uninterp spec fn json_image_field(s: Seq<char>) -> Option<Seq<char>>;

/// The view of an optional owned string.
pub open spec fn opt_str_view(o: Option<String>) -> Option<Seq<char>> {
    match o {
        Some(s) => Some(s@),
        None => None,
    }
}

/// The two extracted fields of a decoded document, each present only if the
/// document carries it as a string.
struct RawFields {
    name: Option<String>,
    image: Option<String>,
}

/// Relies on `serde_json::from_str::<Value>` to decide whether the text is
/// valid JSON ([`json_accepts`]), and on `serde_json::Value::get` with
/// `serde_json::Value::as_str` to extract the top-level `name` and `image`
/// string fields ([`json_name_field`], [`json_image_field`]); all are
/// deterministic in the text alone. `get` returns `None` on a non-object
/// document or a missing key, and `as_str` returns `None` on a non-string
/// value, so a field is `Some` exactly when the document is an object with
/// that key holding a string.
#[verifier::external_body]
fn decode_fields(s: &str) -> (r: Option<RawFields>)
    ensures
        r is Some <==> json_accepts(s@),
        r matches Some(f) ==> opt_str_view(f.name) == json_name_field(s@)
            && opt_str_view(f.image) == json_image_field(s@),
{
    match serde_json::from_str::<serde_json::Value>(s) {
        Ok(v) => Some(RawFields {
            name: v.get("name").and_then(|x| x.as_str()).map(|t| t.to_string()),
            image: v.get("image").and_then(|x| x.as_str()).map(|t| t.to_string()),
        }),
        Err(_) => None,
    }
}

/// What parsing the file contents `text` yields: the comment-stripped text
/// must be a JSON document carrying both string fields; otherwise the error
/// says which requirement failed.
pub open spec fn spec_parse(text: Seq<char>) -> Result<DevcontainerView, ConfigError> {
    let stripped = strip_comments_spec(text);
    if !json_accepts(stripped) {
        Err(ConfigError::ParseError)
    } else {
        match (json_name_field(stripped), json_image_field(stripped)) {
            (Some(n), Some(i)) => Ok(DevcontainerView { name: n, image: i }),
            _ => Err(ConfigError::MissingField),
        }
    }
}

/// The view of a parse result.
pub open spec fn parse_result_view(r: Result<Devcontainer, ConfigError>) -> Result<
    DevcontainerView,
    ConfigError,
> {
    match r {
        Ok(d) => Ok(d@),
        Err(e) => Err(e),
    }
}

/// Parses devcontainer file contents: strips `//` line comments, decodes the
/// rest as JSON, and extracts the string fields `name` and `image`.
pub fn parse_devcontainer(text: &str) -> (r: Result<Devcontainer, ConfigError>)
    ensures
        parse_result_view(r) == spec_parse(text@),
{
    let stripped = strip_comments(text);
    match decode_fields(stripped.as_str()) {
        None => Err(ConfigError::ParseError),
        Some(f) => match (f.name, f.image) {
            (Some(n), Some(i)) => Ok(Devcontainer { name: n, image: i }),
            _ => Err(ConfigError::MissingField),
        },
    }
}

} // verus!
