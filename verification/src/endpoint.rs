//! Where a document comes from and where it goes.

use vstd::prelude::*;

verus! {

/// `std::path::PathBuf`, the path of a file. It is only carried to the caller
/// that opens the file; `path_to_text` gives it as text.
#[verifier::external_type_specification]
#[verifier::external_body]
pub struct ExPathBuf(std::path::PathBuf);

/// The text that `std::path::Path::to_string_lossy` gives for a path.
pub uninterp spec fn path_text(path: std::path::PathBuf) -> Seq<char>;

/// Calls `std::path::Path::to_string_lossy`, which gives the path as text,
/// with a replacement character wherever the path is not Unicode. The contract
/// gives that text its name and claims no more than that it depends on the
/// path alone.
#[verifier::external_body]
pub(crate) fn path_to_text(path: &std::path::PathBuf) -> (text: String)
    ensures
        text@ == path_text(*path),
{
    path.to_string_lossy().into_owned()
}

/// Where the YAML text is read from. It is read once, so a source cannot be
/// copied.
#[derive(Debug)]
pub enum InputSource {
    /// The file at this path.
    File(std::path::PathBuf),
    /// Standard input.
    Stdin,
}

/// Where the YAML text is written to. It may be written more than once, so a
/// destination can be copied.
#[derive(Debug)]
pub enum OutputDestination {
    /// The file at this path, which is replaced as a whole.
    File(String),
    /// Standard output.
    Stdout,
}

impl InputSource {
    /// Whether the source is a file.
    pub fn is_file(&self) -> (file: bool)
        ensures
            file == (self is File),
    {
        match self {
            InputSource::File(_) => true,
            InputSource::Stdin => false,
        }
    }
}

impl OutputDestination {
    /// Whether the destination is a file.
    pub fn is_file(&self) -> (file: bool)
        ensures
            file == (self is File),
    {
        match self {
            OutputDestination::File(_) => true,
            OutputDestination::Stdout => false,
        }
    }
}

impl Clone for OutputDestination {
    fn clone(&self) -> (copy: OutputDestination)
        ensures
            copy == *self,
    {
        match self {
            OutputDestination::File(path) => OutputDestination::File(path.clone()),
            OutputDestination::Stdout => OutputDestination::Stdout,
        }
    }
}

} // verus!
