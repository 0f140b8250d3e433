//! Reading a mod's declared versions out of the metadata file of a mods
//! directory, which is a JSON object from base name to record.

use vstd::prelude::*;
use vstd::string::*;
use crate::error::EngineError;
use crate::version::{
    check_mod_compatibility,
    compatibility,
    opt_text,
    read_version_marker,
    trimmed,
    ModVersionInfo,
    ModVersionInfoView,
};

verus! {

/// A JSON value of `serde_json`. Nothing of its inside is visible here.
#[verifier::external_type_specification]
#[verifier::external_body]
pub struct ExJsonValue(serde_json::Value);

/// The error of `serde_json`.
#[verifier::external_type_specification]
#[verifier::external_body]
pub struct ExJsonError(serde_json::Error);

/// The value that `serde_json::from_str` reads from a text; `None` where it
/// rejects the text.
pub uninterp spec fn json_document(text: Seq<char>) -> Option<serde_json::Value>;

/// The value is a JSON object, as `Value::is_object` tells.
pub uninterp spec fn json_is_object(value: serde_json::Value) -> bool;

/// What a JSON value holds under a key, as `Value::get` gives it.
pub uninterp spec fn json_member(value: serde_json::Value, key: Seq<char>) -> Option<
    serde_json::Value,
>;

/// The text of a JSON value, as `Value::as_str` gives it; `None` for a value
/// that is no string.
pub uninterp spec fn json_string(value: serde_json::Value) -> Option<Seq<char>>;

/// Calls `serde_json::from_str` for a `Value`. The parser reads nothing but
/// the text, so its result is a function of the text, which the contract
/// names; of which texts it accepts nothing is claimed.
#[verifier::external_body]
fn parse_json(text: &str) -> (r: Result<serde_json::Value, serde_json::Error>)
    ensures
        match r {
            Ok(v) => json_document(text@) == Some(v),
            Err(_) => json_document(text@) is None,
        },
{
    serde_json::from_str::<serde_json::Value>(text)
}

/// Calls `Value::is_object`; the contract names the result.
#[verifier::external_body]
pub(crate) fn value_is_object(value: &serde_json::Value) -> (r: bool)
    ensures
        r == json_is_object(*value),
{
    value.is_object()
}

/// Calls `Value::get` with a string key, which looks the key up in an
/// object and gives nothing for any other value; the contract names the
/// result.
#[verifier::external_body]
fn value_member<'a>(value: &'a serde_json::Value, key: &str) -> (r: Option<&'a serde_json::Value>)
    ensures
        match r {
            Some(m) => json_member(*value, key@) == Some(*m),
            None => json_member(*value, key@) is None,
        },
{
    value.get(key)
}

/// Calls `Value::as_str` and copies the text; the contract names the
/// result.
#[verifier::external_body]
fn value_text(value: &serde_json::Value) -> (r: Option<String>)
    ensures
        opt_text(r) == json_string(*value),
{
    match value.as_str() {
        Some(s) => Some(s.to_string()),
        None => None,
    }
}

/// The text that a record holds under a key; nothing where the key is
/// missing or its value is no string.
pub open spec fn field_text(record: serde_json::Value, key: Seq<char>) -> Option<Seq<char>> {
    match json_member(record, key) {
        Some(f) => json_string(f),
        None => None,
    }
}

/// A text, or `Unknown` in its place.
pub open spec fn text_or_unknown(text: Option<Seq<char>>) -> Seq<char> {
    match text {
        Some(t) => t,
        None => "Unknown"@,
    }
}

/// The version information that the fields of a record stand for: the two
/// versions default to `Unknown`, the two bounds stay absent where they
/// are.
pub open spec fn info_from_fields(
    mod_id: Seq<char>,
    version: Option<Seq<char>>,
    silk_version: Option<Seq<char>>,
    min_silk_version: Option<Seq<char>>,
    max_silk_version: Option<Seq<char>>,
) -> ModVersionInfoView {
    ModVersionInfoView {
        mod_id,
        version: text_or_unknown(version),
        silk_version: text_or_unknown(silk_version),
        min_silk_version,
        max_silk_version,
    }
}

/// Builds the version information of a mod from the fields of its record.
pub fn version_info_from_fields(
    mod_id: &str,
    version: Option<String>,
    silk_version: Option<String>,
    min_silk_version: Option<String>,
    max_silk_version: Option<String>,
) -> (r: ModVersionInfo)
    ensures
        r@ == info_from_fields(
            mod_id@,
            opt_text(version),
            opt_text(silk_version),
            opt_text(min_silk_version),
            opt_text(max_silk_version),
        ),
{
    ModVersionInfo {
        mod_id: String::from_str(mod_id),
        version: match version {
            Some(v) => v,
            None => String::from_str("Unknown"),
        },
        silk_version: match silk_version {
            Some(v) => v,
            None => String::from_str("Unknown"),
        },
        min_silk_version,
        max_silk_version,
    }
}

/// What the metadata says of a mod: a failure where the text is no JSON
/// object and where it has no record for the mod, else the version
/// information in the record.
pub open spec fn version_info_of(mod_id: Seq<char>, metadata: Seq<char>) -> Result<
    ModVersionInfoView,
    EngineError,
> {
    match json_document(metadata) {
        None => Err(EngineError::MalformedMetadata),
        Some(doc) => if !json_is_object(doc) {
            Err(EngineError::MalformedMetadata)
        } else {
            match json_member(doc, mod_id) {
                None => Err(EngineError::NotFound),
                Some(record) => Ok(
                    info_from_fields(
                        mod_id,
                        field_text(record, "version"@),
                        field_text(record, "silkVersion"@),
                        field_text(record, "minSilkVersion"@),
                        field_text(record, "maxSilkVersion"@),
                    ),
                ),
            }
        },
    }
}

fn read_field(record: &serde_json::Value, key: &str) -> (r: Option<String>)
    ensures
        opt_text(r) == field_text(*record, key@),
{
    match value_member(record, key) {
        Some(f) => value_text(f),
        None => None,
    }
}

/// Reads the version information of a mod from the content of the metadata
/// file. Fails with `MalformedMetadata` exactly when the content is no JSON
/// object, and with `NotFound` exactly when it is one and holds nothing
/// under the mod's id.
pub fn get_mod_version_info(mod_id: &str, metadata: &str) -> (r: Result<ModVersionInfo, EngineError>)
    ensures
        match version_info_of(mod_id@, metadata@) {
            Ok(v) => r matches Ok(i) && i@ == v,
            Err(e) => r == Err::<ModVersionInfo, EngineError>(e),
        },
{
    let doc = match parse_json(metadata) {
        Ok(doc) => doc,
        Err(_) => {
            return Err(EngineError::MalformedMetadata);
        },
    };
    if !value_is_object(&doc) {
        return Err(EngineError::MalformedMetadata);
    }
    match value_member(&doc, mod_id) {
        None => Err(EngineError::NotFound),
        Some(record) => Ok(
            version_info_from_fields(
                mod_id,
                read_field(record, "version"),
                read_field(record, "silkVersion"),
                read_field(record, "minSilkVersion"),
                read_field(record, "maxSilkVersion"),
            ),
        ),
    }
}

/// Whether the mod may run on the loader, by the version marker and the
/// metadata as they are on disk.
pub open spec fn installed_compatibility(
    version_marker: Seq<char>,
    metadata: Seq<char>,
    mod_id: Seq<char>,
) -> Result<bool, EngineError> {
    match version_info_of(mod_id, metadata) {
        Err(e) => Err(e),
        Ok(info) => compatibility(
            trimmed(version_marker),
            info.min_silk_version,
            info.max_silk_version,
        ),
    }
}

/// Decides whether an installed mod is compatible with the installed
/// loader, from the content of the loader's version marker and of the
/// metadata file alone. Fails as `get_mod_version_info` does, and with
/// `InvalidVersion` as `check_mod_compatibility` does.
pub fn check_installed_mod_compatibility(version_marker: &str, metadata: &str, mod_id: &str) -> (r:
    Result<bool, EngineError>)
    ensures
        r == installed_compatibility(version_marker@, metadata@, mod_id@),
{
    let installed = read_version_marker(version_marker);
    match get_mod_version_info(mod_id, metadata) {
        Err(e) => Err(e),
        Ok(info) => check_mod_compatibility(installed.as_str(), &info),
    }
}

} // verus!
