//! The generic configuration tree and its loader.
//!
//! A YAML document is reduced to a [`ConfigNode`]: a scalar names a file,
//! a sequence groups siblings, a mapping maps path segments to subtrees.
//! Anything else (null, number, boolean, tag) is kept as an inert node that
//! the builder treats as a no-op, and a non-string mapping key is kept as
//! [`MapKey::Other`] so that the builder can skip it silently.

use vstd::prelude::*;

verus! {

/// One node of the parsed configuration document.
#[derive(Debug, PartialEq, Eq)]
pub enum ConfigNode {
    /// A single file to create under the current base directory.
    Scalar(String),
    /// An ordered group of siblings sharing the same base directory.
    Sequence(Vec<ConfigNode>),
    /// Ordered entries; each string key names a path segment, except the
    /// reserved keys handled by the builder.
    Mapping(Vec<(MapKey, ConfigNode)>),
    /// A null, number, boolean or tagged value: a no-op for the builder.
    Empty,
}

/// A mapping key: either a string, or some other YAML value, which the
/// builder skips without an error.
#[derive(Debug, Clone, PartialEq, Eq)]
pub enum MapKey {
    /// A string key.
    Str(String),
    /// A non-string key; skipped silently.
    Other,
}

/// Why a configuration document could not be loaded.
#[derive(Debug, Clone, PartialEq, Eq)]
pub enum ConfigError {
    /// The configuration file does not exist.
    NotFound,
    /// The configuration file exists but could not be read.
    Io(String),
    /// The file was read but is not well-formed YAML; carries the parser's
    /// diagnostic.
    Parse(String),
}

/// How an attempt to read the configuration file ended, as the caller that
/// performed the read reports it: either the text, or the failure kind.
#[derive(Debug, Clone, PartialEq, Eq)]
pub enum ReadError {
    /// The file does not exist.
    NotFound,
    /// Some other read failure, with its description.
    Other(String),
}

#[verifier::external_type_specification]
#[verifier::external_body]
pub struct ExYamlValue(serde_yaml::Value);

/// Relies on serde_yaml::Value being an enum of exactly the null, boolean,
/// number, string, sequence, mapping and tagged variants: each arm moves one
/// variant into the corresponding library key variant.
#[verifier::external_body]
fn key_of_yaml(k: &serde_yaml::Value) -> MapKey {
    match k {
        serde_yaml::Value::String(s) => MapKey::Str(s.clone()),
        _ => MapKey::Other,
    }
}

/// Relies on serde_yaml::Value being an enum of exactly the null, boolean,
/// number, string, sequence, mapping and tagged variants: each arm moves one
/// variant into the corresponding library tree variant.
#[verifier::external_body]
fn node_of_yaml(v: &serde_yaml::Value) -> ConfigNode {
    match v {
        serde_yaml::Value::String(s) => ConfigNode::Scalar(s.clone()),
        serde_yaml::Value::Sequence(items) => ConfigNode::Sequence(
            items.iter().map(node_of_yaml).collect(),
        ),
        serde_yaml::Value::Mapping(entries) => ConfigNode::Mapping(
            entries.iter().map(|(k, w)| (key_of_yaml(k), node_of_yaml(w))).collect(),
        ),
        _ => ConfigNode::Empty,
    }
}

/// What parsing a given configuration text yields: the tree for well-formed
/// YAML, a parse error otherwise. The result is a function of the text
/// alone; what it is on given text only the parser decides.
pub uninterp spec fn yaml_of(text: Seq<char>) -> Result<ConfigNode, ConfigError>;

/// Relies on serde_yaml::from_str: it parses YAML text into the generic
/// value tree when the text is well-formed, and returns an error carrying a
/// syntax diagnostic otherwise. The result depends on the text alone.
#[verifier::external_body]
fn parse_yaml(text: &str) -> (r: Result<ConfigNode, ConfigError>)
    ensures
        r == yaml_of(text@),
        r matches Err(e) ==> e is Parse,
{
    match serde_yaml::from_str::<serde_yaml::Value>(text) {
        Ok(v) => Ok(node_of_yaml(&v)),
        Err(e) => Err(ConfigError::Parse(format!("{}", e))),
    }
}

/// Turns the outcome of reading the configuration file into a parsed tree.
///
/// A missing file is reported as [`ConfigError::NotFound`], any other read
/// failure as [`ConfigError::Io`] with its description, and text that is not
/// well-formed YAML as [`ConfigError::Parse`]. Loading performs no
/// filesystem work of its own.
pub fn load(read: Result<String, ReadError>) -> (r: Result<ConfigNode, ConfigError>)
    ensures
        read matches Err(ReadError::NotFound) ==> r == Err::<ConfigNode, ConfigError>(
            ConfigError::NotFound,
        ),
        read matches Err(ReadError::Other(m)) ==> r == Err::<ConfigNode, ConfigError>(
            ConfigError::Io(m),
        ),
        read matches Ok(text) ==> r == yaml_of(text@),
        read is Ok ==> (r matches Err(e) ==> e is Parse),
{
    match read {
        Ok(text) => parse_yaml(text.as_str()),
        Err(ReadError::NotFound) => Err(ConfigError::NotFound),
        Err(ReadError::Other(m)) => Err(ConfigError::Io(m)),
    }
}

} // verus!
