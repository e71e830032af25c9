//! The document boundary: the external TOML parser, behind one trusted
//! reading of the text into the raw model. The raw document read off a text,
//! and the message of a failed parse, are functions of the text alone and
//! carry names here, so the pipeline's contracts fix the result on every
//! input; every decision (required fields, id range, date validity, defaults)
//! is made downstream by verified code.

use crate::decode::{decode_config, decode_config_spec, DecodeError};
use crate::model::{Config, ConfigRaw, ConfigView, RawConfigView, YasunoriEntryRaw};
use crate::render::{doc_chars, make_content_all};
use vstd::prelude::*;
use vstd::string::StringExecFns;

verus! {

/// The raw document that the external parser reads off a text: `None` when
/// the text is not well-formed TOML, otherwise the raw model with each field
/// present exactly when the document carries it with the expected type.
pub uninterp spec fn raw_doc_of(s: Seq<char>) -> Option<RawConfigView>;

/// The message with which the external parser rejects a text that is not
/// well-formed TOML.
pub uninterp spec fn parse_err_of(s: Seq<char>) -> Seq<char>;

#[verifier::external_type_specification]
#[verifier::external_body]
pub struct ExTomlValue(toml::Value);

/// Part of `parse_to_raw`'s trusted reading. Relies on `toml::Value::get` and
/// `toml::Value::as_str`: the field's text, `None` when it is absent or not a
/// string.
#[verifier::external_body]
fn text_field(v: &toml::Value, key: &str) -> Option<String> {
    v.get(key).and_then(|x| x.as_str()).map(str::to_string)
}

/// Part of `parse_to_raw`'s trusted reading. Relies on `toml::Value::get` and
/// `toml::Value::as_integer`: moves one entry's fields, one for one, into the
/// raw model — each absent or differently typed field as `None`.
#[verifier::external_body]
fn raw_entry_of_value(e: &toml::Value) -> YasunoriEntryRaw {
    YasunoriEntryRaw {
        id: e.get("id").and_then(|x| x.as_integer()),
        title: text_field(e, "title"),
        date: text_field(e, "date"),
        content: text_field(e, "content"),
        meta: text_field(e, "meta"),
        at: text_field(e, "at"),
        senpan: text_field(e, "senpan"),
    }
}

/// Relies on toml's `from_str` and the accessors of `toml::Value` (`get`,
/// `as_str`, `as_integer`, `as_array`, through the two readers above): parses
/// the text into a value tree and moves its fields, one for one, into the raw
/// model, the entry array in document order. Parsing and this reading depend
/// on the text alone: the raw document is named `raw_doc_of`, a failure's
/// message `parse_err_of`. No decision of this library's rules is made here.
#[verifier::external_body]
fn parse_to_raw(s: &str) -> (r: Result<ConfigRaw, String>)
    ensures
        r matches Ok(c) ==> raw_doc_of(s@) == Some(c@),
        r matches Err(m) ==> raw_doc_of(s@) is None && m@ == parse_err_of(s@),
{
    let v: toml::Value = match toml::from_str(s) {
        Ok(v) => v,
        Err(e) => return Err(e.to_string()),
    };
    let entries = v.get("yasunori").and_then(|x| x.as_array());
    Ok(ConfigRaw {
        markdown_header: text_field(&v, "markdown_header"),
        yasunori: entries.map(|a| a.iter().map(raw_entry_of_value).collect()),
    })
}

/// Why a document could not be rendered: the TOML text failed to parse (with
/// the external parser's message), or the parsed document failed to decode.
#[derive(Debug, PartialEq, Eq, Clone)]
pub enum DocumentError {
    Syntax(String),
    Decode(DecodeError),
}

/// The diagnostic text of a decode error.
pub open spec fn decode_error_chars(e: DecodeError) -> Seq<char> {
    match e {
        DecodeError::MissingId => "missing required field: id"@,
        DecodeError::InvalidId => "invalid id: expected an unsigned 32-bit integer"@,
        DecodeError::MissingTitle => "missing required field: title"@,
        DecodeError::MissingDate => "missing required field: date"@,
        DecodeError::MissingAt => "missing required field: at"@,
        DecodeError::MissingSenpan => "missing required field: senpan"@,
        DecodeError::MissingEntries => "missing entries table: yasunori"@,
        DecodeError::InvalidDate => "invalid date: expected a valid YYYY-MM-DD"@,
    }
}

impl DocumentError {
    /// The diagnostic text of this error, for the caller to print.
    pub fn message(&self) -> (r: String)
        ensures
            self matches DocumentError::Syntax(m) ==> r@ == "Unable to parse the toml: "@ + m@,
            self matches DocumentError::Decode(e) ==> r@ == decode_error_chars(*e),
    {
        match self {
            DocumentError::Syntax(m) => {
                let mut s = String::from_str("Unable to parse the toml: ");
                s.append(m.as_str());
                s
            },
            DocumentError::Decode(e) => match e {
                DecodeError::MissingId => String::from_str("missing required field: id"),
                DecodeError::InvalidId => String::from_str(
                    "invalid id: expected an unsigned 32-bit integer",
                ),
                DecodeError::MissingTitle => String::from_str("missing required field: title"),
                DecodeError::MissingDate => String::from_str("missing required field: date"),
                DecodeError::MissingAt => String::from_str("missing required field: at"),
                DecodeError::MissingSenpan => String::from_str("missing required field: senpan"),
                DecodeError::MissingEntries => String::from_str("missing entries table: yasunori"),
                DecodeError::InvalidDate => String::from_str(
                    "invalid date: expected a valid YYYY-MM-DD",
                ),
            },
        }
    }
}

/// Parses TOML text and decodes it into the canonical model: succeeds exactly
/// when the text is well-formed TOML whose raw document decodes, returning
/// its decoding; a decode failure comes back unmodified in kind, a parse
/// failure as the parser's message.
pub fn entry_from_toml(toml_str: String) -> (r: Result<Config, DocumentError>)
    ensures
        r matches Ok(c) ==> c@.wf(),
        raw_doc_of(toml_str@) matches Some(raw) ==> {
            &&& (r is Ok <==> decode_config_spec(raw) is Ok)
            &&& (r matches Ok(c) ==> Ok::<ConfigView, DecodeError>(c@) == decode_config_spec(raw))
            &&& (r matches Err(e) ==> e matches DocumentError::Decode(d) && Err::<
                ConfigView,
                DecodeError,
            >(d) == decode_config_spec(raw))
        },
        raw_doc_of(toml_str@) is None ==> (r matches Err(e) && e matches DocumentError::Syntax(m)
            && m@ == parse_err_of(toml_str@)),
{
    match parse_to_raw(toml_str.as_str()) {
        Ok(raw) => match decode_config(&raw) {
            Ok(c) => Ok(c),
            Err(e) => Err(DocumentError::Decode(e)),
        },
        Err(m) => Err(DocumentError::Syntax(m)),
    }
}

/// The document that the whole pipeline yields on a text: `None` when the
/// text does not parse or its raw document does not decode, otherwise the
/// rendering of its decoding.
pub open spec fn rendered_doc_of(s: Seq<char>) -> Option<Seq<char>> {
    match raw_doc_of(s) {
        Some(raw) => match decode_config_spec(raw) {
            Ok(c) => Some(doc_chars(c)),
            Err(_) => None,
        },
        None => None,
    }
}

/// The whole pipeline on TOML text: parse, decode, render. The output is
/// `rendered_doc_of` on the text — a function of the text alone, so two runs
/// on identical input yield byte-identical output — and each failure carries
/// the stage's own error.
pub fn render_document(toml_str: String) -> (r: Result<String, DocumentError>)
    ensures
        r is Ok <==> rendered_doc_of(toml_str@) is Some,
        r matches Ok(out) ==> Some(out@) == rendered_doc_of(toml_str@),
        raw_doc_of(toml_str@) matches Some(raw) ==> (r matches Err(e) ==> e matches
            DocumentError::Decode(d) && Err::<ConfigView, DecodeError>(d) == decode_config_spec(
            raw,
        )),
        raw_doc_of(toml_str@) is None ==> (r matches Err(e) && e matches DocumentError::Syntax(m)
            && m@ == parse_err_of(toml_str@)),
{
    match entry_from_toml(toml_str) {
        Ok(cfg) => {
            let out = make_content_all(&cfg);
            Ok(out)
        },
        Err(e) => Err(e),
    }
}

} // verus!
