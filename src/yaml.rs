//! The YAML value type and the parser that the frontmatter goes through.

use vstd::prelude::*;
use serde_yaml::{Mapping, Number, Value};

verus! {

#[verifier::external_type_specification]
#[verifier::external_body]
pub struct ExNumber(Number);

#[verifier::external_type_specification]
#[verifier::external_body]
pub struct ExMapping(Mapping);

#[verifier::external_type_specification]
#[verifier::external_body]
pub struct ExTaggedValue(serde_yaml::value::TaggedValue);

#[verifier::external_type_specification]
pub struct ExValue(Value);

#[verifier::external_type_specification]
#[verifier::external_body]
pub struct ExYamlError(serde_yaml::Error);

/// The value that the YAML text `s` denotes, or `None` where `s` is not valid YAML.
pub uninterp spec fn yaml_document(s: Seq<char>) -> Option<Value>;

/// Relies on `serde_yaml::from_str::<Value>`: parses `s` as one YAML document,
/// with an outcome that depends on the text alone.
#[verifier::external_body]
pub(crate) fn parse_yaml(s: &str) -> (r: Result<Value, serde_yaml::Error>)
    ensures
        match r {
            Ok(v) => yaml_document(s@) == Some(v),
            Err(_) => yaml_document(s@) is None,
        },
{
    serde_yaml::from_str::<Value>(s)
}

} // verus!
