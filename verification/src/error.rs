//! What can end an edit without a saved document.

use vstd::prelude::*;

verus! {

/// `std::io::Error`: what a failed read, write or program start reports. It
/// is only carried from the event that brings it to the outcome.
#[verifier::external_type_specification]
#[verifier::external_body]
pub struct ExIoError(std::io::Error);

/// `serde_json::Error`: what `serde_json` reports of text or a document that
/// it rejects. It is only carried on.
#[verifier::external_type_specification]
#[verifier::external_body]
pub struct ExJsonError(serde_json::Error);

/// `serde_yaml::Error`: what `serde_yaml` reports of text or a document that
/// it rejects. It is only carried on.
#[verifier::external_type_specification]
#[verifier::external_body]
pub struct ExYamlError(serde_yaml::Error);

/// Why an edit ended without a saved document. Each variant but `NoChanges`
/// carries the error that the failed step reported.
#[derive(Debug)]
pub enum YamlEditorError {
    /// The YAML text could not be decoded, or the document could not be
    /// written as YAML.
    YamlRead(serde_yaml::Error),
    /// The temporary file could not be created, filled or read back.
    TempFile(std::io::Error),
    /// The document could not be written as JSON.
    JsonSerialization(serde_json::Error),
    /// The edited text is not JSON.
    JsonDeserialization(serde_json::Error),
    /// The editing program could not be run.
    EditorExecution(std::io::Error),
    /// A file could not be read or written, or the prompt could not be read.
    FileIO(std::io::Error),
    /// The edited document is the same as the one read. This is no failure.
    NoChanges,
    /// Standard input could not be read.
    StdinRead(std::io::Error),
    /// Standard output could not be written.
    StdoutWrite(std::io::Error),
}

impl YamlEditorError {
    /// Whether this is a failure. Only `NoChanges` is none.
    pub fn is_failure(&self) -> (failure: bool)
        ensures
            failure == !(self is NoChanges),
    {
        match self {
            YamlEditorError::NoChanges => false,
            _ => true,
        }
    }
}

impl From<serde_yaml::Error> for YamlEditorError {
    fn from(error: serde_yaml::Error) -> (wrapped: YamlEditorError) {
        YamlEditorError::YamlRead(error)
    }
}

impl vstd::std_specs::convert::FromSpecImpl<serde_yaml::Error> for YamlEditorError {
    open spec fn obeys_from_spec() -> bool {
        true
    }

    open spec fn from_spec(error: serde_yaml::Error) -> YamlEditorError {
        YamlEditorError::YamlRead(error)
    }
}

} // verus!
