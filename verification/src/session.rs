//! One edit session: the document as it was read, and where the edited
//! document goes.

use crate::codec::{decode_json, decode_yaml, encode_json_pretty, encode_yaml};
use crate::codec::{json_error_text, json_parse, json_pretty, yaml_error_text, yaml_parse, yaml_text};
use crate::document::Document;
use crate::endpoint::OutputDestination;
use crate::error::YamlEditorError;
use vstd::prelude::*;

verus! {

/// The state of one edit: the document as it was read, which never changes,
/// and the destination of the edited document. The temporary file that the
/// editing program works on belongs to the caller; the session hands out the
/// text to put into it and takes back the text found in it.
#[derive(Debug)]
pub struct EditSession {
    original_content: Document,
    output_destination: OutputDestination,
}

/// What a session makes of the text that came back from the editing program.
#[derive(Debug)]
pub enum Verdict {
    /// The text is the document that was read: there is nothing to save.
    Unchanged,
    /// The text is another document, which is to be saved.
    Changed(Document),
    /// The text is not JSON: the editing program is to be opened again.
    Retry(serde_json::Error),
    /// The text could not be had at all.
    Fatal(YamlEditorError),
}

impl EditSession {
    /// The document as it was read.
    pub closed spec fn original(&self) -> Document {
        self.original_content
    }

    /// Where the edited document goes.
    pub closed spec fn destination(&self) -> OutputDestination {
        self.output_destination
    }

    /// Starts a session on YAML text: decodes it, and hands out with the
    /// session the indented JSON text that the temporary file is to hold.
    pub fn new(yaml_content: &str, output_destination: OutputDestination) -> (created: Result<
        (EditSession, String),
        YamlEditorError,
    >)
        ensures
            match yaml_parse(yaml_content@) {
                Err(message) => {
                    &&& created matches Err(YamlEditorError::YamlRead(error))
                    &&& yaml_error_text(error) == message
                },
                Ok(tree) => match json_pretty(tree) {
                    None => created matches Err(YamlEditorError::JsonSerialization(_)),
                    Some(json) => {
                        &&& created matches Ok((session, buffer))
                        &&& session.original()@ == tree
                        &&& session.original().wf()
                        &&& session.destination() == output_destination
                        &&& buffer@ == json
                    },
                },
            },
    {
        let original_content = match decode_yaml(yaml_content) {
            Ok(document) => document,
            Err(error) => {
                return Err(error);
            },
        };
        let json_content = match encode_json_pretty(&original_content) {
            Ok(json) => json,
            Err(error) => {
                return Err(error);
            },
        };
        Ok((EditSession { original_content, output_destination }, json_content))
    }

    /// The document as it was read.
    pub fn original_content(&self) -> (document: &Document)
        ensures
            *document == self.original(),
    {
        &self.original_content
    }

    /// Where the edited document goes.
    pub fn output_destination(&self) -> (destination: &OutputDestination)
        ensures
            *destination == self.destination(),
    {
        &self.output_destination
    }

    /// Decodes the text that the temporary file holds after the editing
    /// program has closed.
    pub fn try_parse_json(&self, content: &str) -> (parsed: Result<Document, YamlEditorError>)
        ensures
            match json_parse(content@) {
                Ok(tree) => parsed matches Ok(edited) && edited@ == tree && edited.wf(),
                Err(message) => {
                    &&& parsed matches Err(YamlEditorError::JsonDeserialization(error))
                    &&& json_error_text(error) == message
                },
            },
    {
        decode_json(content)
    }

    /// Whether an edited document differs from the one that was read. A float
    /// zero that only changed its sign is no difference.
    pub fn has_changes(&self, edited_value: &Document) -> (changed: bool)
        ensures
            changed == !edited_value@.same(self.original()@),
    {
        !edited_value.same_as(&self.original_content)
    }

    /// Judges what came back from the editing program, given the outcome of
    /// decoding it.
    pub fn review(&self, parsed: Result<Document, YamlEditorError>) -> (verdict: Verdict)
        ensures
            verdict == self.reviewed(parsed),
    {
        match parsed {
            Ok(edited) => {
                if self.has_changes(&edited) {
                    Verdict::Changed(edited)
                } else {
                    Verdict::Unchanged
                }
            },
            Err(YamlEditorError::JsonDeserialization(error)) => Verdict::Retry(error),
            Err(other) => Verdict::Fatal(other),
        }
    }

    /// The verdict on each outcome of decoding: a document that is the same as
    /// the one read is unchanged, any other document is changed, text that
    /// is not JSON asks for another try, and any other error is final.
    pub open spec fn reviewed(&self, parsed: Result<Document, YamlEditorError>) -> Verdict {
        match parsed {
            Ok(edited) => if edited@.same(self.original()@) {
                Verdict::Unchanged
            } else {
                Verdict::Changed(edited)
            },
            Err(YamlEditorError::JsonDeserialization(error)) => Verdict::Retry(error),
            Err(other) => Verdict::Fatal(other),
        }
    }

    /// Encodes an edited document as the YAML text that the destination is to
    /// receive.
    pub fn save_yaml(&self, edited_value: &Document) -> (saved: Result<String, YamlEditorError>)
        ensures
            match yaml_text(edited_value@) {
                Some(text) => saved matches Ok(yaml) && yaml@ == text,
                None => saved matches Err(YamlEditorError::YamlRead(_)),
            },
    {
        encode_yaml(edited_value)
    }
}

} // verus!
