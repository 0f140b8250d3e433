//! The configuration files of mods: YAML documents that are shown as JSON
//! and changed one value at a time, addressed by a dotted path of keys.

use vstd::prelude::*;
use vstd::string::*;
use crate::metadata::{json_is_object, value_is_object};
use crate::text::{has_suffix, split_on, split_str, str_ends_with, texts};
use crate::version::opt_text;

verus! {

/// A YAML value of `serde_yaml`. Nothing of its inside is visible here.
#[verifier::external_type_specification]
#[verifier::external_body]
pub struct ExYamlValue(serde_yaml::Value);

/// The error of `serde_yaml`.
#[verifier::external_type_specification]
#[verifier::external_body]
pub struct ExYamlError(serde_yaml::Error);

/// Why a configuration could not be read or changed.
#[derive(Clone, Copy, Debug, PartialEq, Eq, Structural)]
pub enum ConfigError {
    /// The content is not YAML.
    MalformedYaml,
    /// The root of the document is not an object.
    NotAnObject,
    /// A value has no counterpart in the other format.
    NotConvertible,
    /// The path of keys is empty.
    EmptyKeyPath,
    /// The path leads through or into something that is no mapping.
    NotAMapping,
    /// A mapping does not hold a key that was just put into it.
    NavigationFailed,
    /// The changed document cannot be written as YAML.
    NotRenderable,
}

/// The value that `serde_yaml::from_str` reads from a text; `None` where it
/// rejects the text.
pub uninterp spec fn yaml_document(text: Seq<char>) -> Option<serde_yaml::Value>;

/// The text that `serde_yaml::to_string` writes for a value; `None` where it
/// fails.
pub uninterp spec fn yaml_text(value: serde_yaml::Value) -> Option<Seq<char>>;

/// The JSON value that `serde_json::to_value` makes of a YAML value; `None`
/// where it fails.
pub uninterp spec fn json_of_yaml(value: serde_yaml::Value) -> Option<serde_json::Value>;

/// The YAML value that `serde_json::from_value` makes of a JSON value;
/// `None` where it fails.
pub uninterp spec fn yaml_of_json(value: serde_json::Value) -> Option<serde_yaml::Value>;

/// The value is the variant `Mapping` itself, not a tagged one.
pub uninterp spec fn yaml_is_mapping(value: serde_yaml::Value) -> bool;

/// What a mapping holds under a string key, as `Mapping::get` gives it;
/// `None` for a value that is no mapping.
pub uninterp spec fn yaml_entry(value: serde_yaml::Value, key: Seq<char>) -> Option<
    serde_yaml::Value,
>;

/// A mapping after `Mapping::insert` of a value under a string key; any
/// other value as it is.
pub uninterp spec fn yaml_with_entry(
    value: serde_yaml::Value,
    key: Seq<char>,
    child: serde_yaml::Value,
) -> serde_yaml::Value;

/// A mapping after `Mapping::insert` of an empty mapping under a string
/// key; any other value as it is.
pub uninterp spec fn yaml_with_empty_entry(
    value: serde_yaml::Value,
    key: Seq<char>,
) -> serde_yaml::Value;

/// Calls `serde_yaml::from_str` for a `Value`; the contract names the
/// result, which depends on the text alone.
#[verifier::external_body]
fn parse_yaml(text: &str) -> (r: Result<serde_yaml::Value, serde_yaml::Error>)
    ensures
        match r {
            Ok(v) => yaml_document(text@) == Some(v),
            Err(_) => yaml_document(text@) is None,
        },
{
    serde_yaml::from_str::<serde_yaml::Value>(text)
}

/// Calls `serde_yaml::to_string`; the contract names the result.
#[verifier::external_body]
fn render_yaml(value: &serde_yaml::Value) -> (r: Result<String, serde_yaml::Error>)
    ensures
        match r {
            Ok(t) => yaml_text(*value) == Some(t@),
            Err(_) => yaml_text(*value) is None,
        },
{
    serde_yaml::to_string(value)
}

/// Calls `serde_json::to_value` on a YAML value; the contract names the
/// result.
#[verifier::external_body]
fn yaml_to_json(value: &serde_yaml::Value) -> (r: Result<serde_json::Value, serde_json::Error>)
    ensures
        match r {
            Ok(j) => json_of_yaml(*value) == Some(j),
            Err(_) => json_of_yaml(*value) is None,
        },
{
    serde_json::to_value(value)
}

/// Calls `serde_json::from_value` for a YAML value; the contract names the
/// result.
#[verifier::external_body]
fn json_to_yaml(value: serde_json::Value) -> (r: Result<serde_yaml::Value, serde_json::Error>)
    ensures
        match r {
            Ok(y) => yaml_of_json(value) == Some(y),
            Err(_) => yaml_of_json(value) is None,
        },
{
    serde_json::from_value::<serde_yaml::Value>(value)
}

/// Tells the variant `Mapping` of `serde_yaml::Value` from the others; the
/// contract names the result.
#[verifier::external_body]
fn is_plain_mapping(value: &serde_yaml::Value) -> (r: bool)
    ensures
        r == yaml_is_mapping(*value),
{
    match value {
        serde_yaml::Value::Mapping(_) => true,
        _ => false,
    }
}

/// Calls `Mapping::get` with the key as a YAML string and copies what it
/// finds; the contract names the result.
#[verifier::external_body]
fn mapping_entry(value: &serde_yaml::Value, key: &str) -> (r: Option<serde_yaml::Value>)
    ensures
        r == yaml_entry(*value, key@),
{
    match value {
        serde_yaml::Value::Mapping(m) => m.get(&serde_yaml::Value::String(key.to_string())).cloned(),
        _ => None,
    }
}

/// Calls `Mapping::insert` with the key as a YAML string, which replaces
/// what the mapping held under it; the contract names the result.
#[verifier::external_body]
fn mapping_insert(value: serde_yaml::Value, key: &str, child: serde_yaml::Value) -> (r:
    serde_yaml::Value)
    ensures
        r == yaml_with_entry(value, key@, child),
{
    match value {
        serde_yaml::Value::Mapping(mut m) => {
            m.insert(serde_yaml::Value::String(key.to_string()), child);
            serde_yaml::Value::Mapping(m)
        },
        other => other,
    }
}

/// Calls `Mapping::insert` with the key as a YAML string and a mapping made
/// by `Mapping::new` as the value; the contract names the result.
#[verifier::external_body]
fn mapping_insert_empty(value: serde_yaml::Value, key: &str) -> (r: serde_yaml::Value)
    ensures
        r == yaml_with_empty_entry(value, key@),
{
    match value {
        serde_yaml::Value::Mapping(mut m) => {
            m.insert(
                serde_yaml::Value::String(key.to_string()),
                serde_yaml::Value::Mapping(serde_yaml::Mapping::new()),
            );
            serde_yaml::Value::Mapping(m)
        },
        other => other,
    }
}

/// The configuration that a YAML text stands for, as a JSON object.
pub open spec fn config_of(content: Seq<char>) -> Result<serde_json::Value, ConfigError> {
    match yaml_document(content) {
        None => Err(ConfigError::MalformedYaml),
        Some(doc) => match json_of_yaml(doc) {
            None => Err(ConfigError::NotConvertible),
            Some(j) => if json_is_object(j) {
                Ok(j)
            } else {
                Err(ConfigError::NotAnObject)
            },
        },
    }
}

/// Reads the configuration of a mod from the content of its file. Fails
/// with `MalformedYaml` exactly when the content is no YAML, with
/// `NotConvertible` when the document has no JSON form, and with
/// `NotAnObject` when its root is not an object.
pub fn load_mod_config(content: &str) -> (r: Result<serde_json::Value, ConfigError>)
    ensures
        r == config_of(content@),
{
    match parse_yaml(content) {
        Err(_) => Err(ConfigError::MalformedYaml),
        Ok(doc) => match yaml_to_json(&doc) {
            Err(_) => Err(ConfigError::NotConvertible),
            Ok(j) => {
                if value_is_object(&j) {
                    Ok(j)
                } else {
                    Err(ConfigError::NotAnObject)
                }
            },
        },
    }
}

/// A document after a value was set at a path of keys.
///
/// The last key is set in the mapping that the keys before it lead to. On
/// the way, a key that a mapping does not hold is given an empty mapping.
/// The value is converted only when the path was followed to its last key.
pub open spec fn nested_set(
    current: serde_yaml::Value,
    keys: Seq<Seq<char>>,
    value: serde_json::Value,
) -> Result<serde_yaml::Value, ConfigError>
    decreases keys.len(),
{
    if keys.len() == 0 {
        Err(ConfigError::EmptyKeyPath)
    } else if keys.len() == 1 {
        match yaml_of_json(value) {
            None => Err(ConfigError::NotConvertible),
            Some(y) => if yaml_is_mapping(current) {
                Ok(yaml_with_entry(current, keys[0], y))
            } else {
                Err(ConfigError::NotAMapping)
            },
        }
    } else if !yaml_is_mapping(current) {
        Err(ConfigError::NotAMapping)
    } else {
        let prepared = if yaml_entry(current, keys[0]) is None {
            yaml_with_empty_entry(current, keys[0])
        } else {
            current
        };
        match yaml_entry(prepared, keys[0]) {
            None => Err(ConfigError::NavigationFailed),
            Some(child) => match nested_set(child, keys.drop_first(), value) {
                Ok(c) => Ok(yaml_with_entry(prepared, keys[0], c)),
                Err(e) => Err(e),
            },
        }
    }
}

fn set_from(
    current: serde_yaml::Value,
    keys: &Vec<String>,
    from: usize,
    value: serde_json::Value,
) -> (r: Result<serde_yaml::Value, ConfigError>)
    requires
        from <= keys@.len(),
    ensures
        r == nested_set(
            current,
            texts(keys@).subrange(from as int, keys@.len() as int),
            value,
        ),
    decreases keys@.len() - from,
{
    let n: usize = keys.len();
    let ghost path = texts(keys@).subrange(from as int, n as int);
    if from == n {
        return Err(ConfigError::EmptyKeyPath);
    }
    let key = keys[from].as_str();
    assert(path[0] == key@);
    if n - from == 1 {
        match json_to_yaml(value) {
            Err(_) => Err(ConfigError::NotConvertible),
            Ok(y) => {
                if is_plain_mapping(&current) {
                    Ok(mapping_insert(current, key, y))
                } else {
                    Err(ConfigError::NotAMapping)
                }
            },
        }
    } else {
        if !is_plain_mapping(&current) {
            return Err(ConfigError::NotAMapping);
        }
        let prepared = if mapping_entry(&current, key).is_none() {
            mapping_insert_empty(current, key)
        } else {
            current
        };
        match mapping_entry(&prepared, key) {
            None => Err(ConfigError::NavigationFailed),
            Some(child) => {
                assert(path.drop_first() =~= texts(keys@).subrange(from + 1, n as int));
                match set_from(child, keys, from + 1, value) {
                    Ok(c) => Ok(mapping_insert(prepared, key, c)),
                    Err(e) => Err(e),
                }
            },
        }
    }
}

/// Sets a value in a document at a path of keys. Fails with `EmptyKeyPath`
/// for an empty path, with `NotAMapping` where the path leads through or
/// into something that is no mapping, and with `NotConvertible` where the
/// path can be followed and the value has no YAML form.
pub fn set_nested_value(current: serde_yaml::Value, keys: &Vec<String>, value: serde_json::Value) -> (r:
    Result<serde_yaml::Value, ConfigError>)
    ensures
        r == nested_set(current, texts(keys@), value),
{
    assert(texts(keys@).subrange(0, keys@.len() as int) =~= texts(keys@));
    set_from(current, keys, 0, value)
}

/// The content of a configuration file after a value was set under a
/// dotted key.
pub open spec fn config_after_set(content: Seq<char>, key: Seq<char>, value: serde_json::Value) -> Result<
    Seq<char>,
    ConfigError,
> {
    match yaml_document(content) {
        None => Err(ConfigError::MalformedYaml),
        Some(doc) => match nested_set(doc, split_on(key, '.'), value) {
            Err(e) => Err(e),
            Ok(updated) => match yaml_text(updated) {
                Some(t) => Ok(t),
                None => Err(ConfigError::NotRenderable),
            },
        },
    }
}

/// Sets one value of a mod's configuration: reads the content of the file,
/// sets the value under the key, whose parts are separated by dots, and
/// gives the new content of the file.
pub fn set_mod_config_value(content: &str, key: &str, value: serde_json::Value) -> (r: Result<
    String,
    ConfigError,
>)
    ensures
        match config_after_set(content@, key@, value) {
            Ok(t) => r matches Ok(s) && s@ == t,
            Err(e) => r == Err::<String, ConfigError>(e),
        },
{
    let doc = match parse_yaml(content) {
        Ok(doc) => doc,
        Err(_) => {
            return Err(ConfigError::MalformedYaml);
        },
    };
    let keys = split_str(key, '.');
    match set_nested_value(doc, &keys, value) {
        Err(e) => Err(e),
        Ok(updated) => match render_yaml(&updated) {
            Ok(t) => Ok(t),
            Err(_) => Err(ConfigError::NotRenderable),
        },
    }
}

/// The id of the mod that a configuration file belongs to: the name of the
/// file without its extension `.yaml`, where it has that extension and
/// something before it.
pub open spec fn config_id(file_name: Seq<char>) -> Option<Seq<char>> {
    if has_suffix(file_name, ".yaml"@) && file_name.len() > 5 {
        Some(file_name.subrange(0, file_name.len() - 5))
    } else {
        None
    }
}

/// Tells whether a directory entry is the configuration file of a mod, and
/// of which.
pub fn config_id_of(file_name: &str, is_file: bool) -> (r: Option<String>)
    ensures
        opt_text(r) == (if is_file {
            config_id(file_name@)
        } else {
            None
        }),
{
    proof {
        reveal_strlit(".yaml");
    }
    let n: usize = file_name.unicode_len();
    if is_file && n > 5 && str_ends_with(file_name, ".yaml") {
        Some(String::from_str(file_name.substring_char(0, n - 5)))
    } else {
        None
    }
}

/// The configuration of one mod, as it is listed.
pub struct ModConfigFile {
    pub mod_id: String,
    pub mod_name: String,
    /// The root object of the configuration.
    pub config: serde_json::Value,
}

/// Reads one entry of the configuration directory: nothing for an entry
/// that is no configuration file or whose content cannot be read as a
/// configuration, else the configuration under the id and name of its mod.
pub fn read_mod_config(file_name: &str, is_file: bool, content: &str) -> (r: Option<ModConfigFile>)
    ensures
        match r {
            Some(c) => is_file && config_id(file_name@) == Some(c.mod_id@) && c.mod_name@
                == c.mod_id@ && config_of(content@) == Ok::<serde_json::Value, ConfigError>(
                c.config,
            ),
            None => !is_file || config_id(file_name@) is None || config_of(content@) is Err,
        },
{
    match config_id_of(file_name, is_file) {
        None => None,
        Some(id) => match load_mod_config(content) {
            Err(_) => None,
            Ok(config) => Some(ModConfigFile { mod_id: id.clone(), mod_name: id, config }),
        },
    }
}

} // verus!
