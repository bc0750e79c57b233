//! Editing a YAML document as JSON text.
//!
//! A YAML document is read and decoded, handed to an editing program as
//! indented JSON in a temporary file, and decoded again when the program has
//! closed. Text that is not JSON sends the user back to the editing program,
//! on the same file. A document that differs from the one read is written
//! back as YAML; one that does not is left alone.
//!
//! This library holds what is decided and computed on the way: the document
//! model and its equality (`document`), the conversions between text and
//! documents (`codec`), the session that keeps the document read (`session`),
//! and the state machine that leads an edit from step to step (`editor`). It
//! does no input or output: the program around it reads and writes files,
//! keeps the temporary file and runs the editing program.

pub mod codec;
pub mod document;
pub mod editor;
pub mod endpoint;
pub mod error;
pub mod session;

pub use crate::document::Document;
pub use crate::editor::{Action, EditState, Event, Notice, PromptChannel, YamlEditor};
pub use crate::endpoint::{InputSource, OutputDestination};
pub use crate::error::YamlEditorError;
pub use crate::session::{EditSession, Verdict};
