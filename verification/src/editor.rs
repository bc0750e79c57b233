//! The editor: which source and destination an edit uses, and the state
//! machine that takes one edit from reading the input to its outcome.
//!
//! The machine does no input or output. Each step takes the state and what the
//! last action returned, and gives the next state and the next action. The
//! caller carries out the actions: it reads and writes the files, keeps the
//! temporary file, runs the editing program and waits for the user.

use crate::codec::{json_error_text, json_parse, json_pretty, yaml_error_text, yaml_parse, yaml_text};
use crate::endpoint::{path_text, path_to_text, InputSource, OutputDestination};
use crate::error::YamlEditorError;
use crate::session::{EditSession, Verdict};
use vstd::prelude::*;

verus! {

/// What the caller reports of the action that it was asked for.
#[derive(Debug)]
pub enum Event {
    /// The action was carried out. The text is what it read; it is empty for
    /// an action that reads nothing.
    Completed(String),
    /// The action failed with this error.
    Failed(std::io::Error),
    /// The action was carried out and ended with this complaint: the editing
    /// program ran and exited with a status other than zero. For every other
    /// action this counts as a failure.
    Exited(std::io::Error),
}

/// What the caller is asked to do next.
#[derive(Debug)]
pub enum Action {
    /// Read the whole input from the editor's source.
    ReadInput,
    /// Create the temporary file, with a name that ends in `.json`, write this
    /// text into it and flush it.
    PopulateBuffer(String),
    /// Run the editing program on the temporary file and wait until it ends.
    LaunchEditor,
    /// Read the whole temporary file.
    ReadBuffer,
    /// Show this error, and the text that it was found in, to the user, and
    /// wait until a line has been entered on the editor's prompt channel.
    ReportParseError(serde_json::Error, String),
    /// Write this text to this destination.
    WriteOutput(OutputDestination, String),
    /// Nothing more: the edit has ended, and the state tells how.
    Finish,
}

/// How far an edit has come.
#[derive(Debug)]
pub enum EditState {
    /// The input is being read. Every edit starts here.
    Opening,
    /// The session exists and its temporary file is being filled. The editing
    /// program has not run yet.
    Created(EditSession),
    /// The editing program is running.
    Editing(EditSession),
    /// The editing program has ended and the temporary file is being read
    /// back, to be decoded and compared.
    Validating(EditSession),
    /// The edited document differs and is being written to the destination.
    Committing(EditSession),
    /// The edited text was not JSON. The user has been told and is being
    /// waited for, before the editing program runs again on the same file.
    Retrying(EditSession),
    /// The edit has ended: the document is as it was, and nothing was written.
    Unchanged,
    /// The edit has ended: the edited document has been written.
    Committed,
    /// The edit has ended with this error.
    Fatal(YamlEditorError),
}

/// Where the user's answer to a reported error is waited for.
#[derive(Debug)]
pub enum PromptChannel {
    /// Standard input.
    StandardInput,
    /// The terminal that controls the program, whatever standard input is.
    Terminal,
}

/// What is printed on standard output when an edit has ended.
#[derive(Debug)]
pub enum Notice {
    /// The edited document was saved.
    Updated,
    /// There was nothing to save.
    NoChanges,
}

/// An edit of one YAML document: where it is read from and where the edited
/// document is written to.
#[derive(Debug)]
pub struct YamlEditor {
    input_source: InputSource,
    output_destination: OutputDestination,
}

impl EditState {
    /// Whether the edit has ended.
    pub open spec fn is_final(&self) -> bool {
        self is Unchanged || self is Committed || self is Fatal
    }

    /// Whether the edit has ended.
    pub fn finished(&self) -> (ended: bool)
        ensures
            ended == self.is_final(),
    {
        match self {
            EditState::Unchanged | EditState::Committed | EditState::Fatal(_) => true,
            _ => false,
        }
    }

    /// How the edit ended: `Ok` where the edited document was written,
    /// `NoChanges` where there was nothing to write, else the error. `None`
    /// while the edit has not ended.
    pub fn outcome(self) -> (result: Option<Result<(), YamlEditorError>>)
        ensures
            result == match self {
                EditState::Committed => Some(Ok::<(), YamlEditorError>(())),
                EditState::Unchanged => Some(Err(YamlEditorError::NoChanges)),
                EditState::Fatal(error) => Some(Err(error)),
                _ => None,
            },
    {
        match self {
            EditState::Committed => Some(Ok(())),
            EditState::Unchanged => Some(Err(YamlEditorError::NoChanges)),
            EditState::Fatal(error) => Some(Err(error)),
            _ => None,
        }
    }
}

impl Notice {
    /// The line to print.
    pub fn text(&self) -> (line: &'static str)
        ensures
            line@ == match self {
                Notice::Updated => "YAML file updated successfully"@,
                Notice::NoChanges => "No changes made"@,
            },
    {
        match self {
            Notice::Updated => "YAML file updated successfully",
            Notice::NoChanges => "No changes made",
        }
    }
}

/// The exit code for an outcome: 0 where the document was saved or there was
/// nothing to save, 1 for every failure.
pub fn exit_code(result: &Result<(), YamlEditorError>) -> (code: i32)
    ensures
        code == if result is Ok || result == Err::<(), YamlEditorError>(YamlEditorError::NoChanges) {
            0i32
        } else {
            1i32
        },
{
    match result {
        Ok(_) => 0,
        Err(YamlEditorError::NoChanges) => 0,
        Err(_) => 1,
    }
}

impl YamlEditor {
    /// Where the document is read from.
    pub closed spec fn source(&self) -> InputSource {
        self.input_source
    }

    /// Where the edited document is written to.
    pub closed spec fn destination(&self) -> OutputDestination {
        self.output_destination
    }

    /// An editor that reads from one place and writes to another.
    pub fn new(input_source: InputSource, output_destination: OutputDestination) -> (editor:
        YamlEditor)
        ensures
            editor.source() == input_source,
            editor.destination() == output_destination,
    {
        YamlEditor { input_source, output_destination }
    }

    /// An editor that reads a file and writes the edited document back to it.
    /// The file is read at the path as it is given, and written at the path
    /// as text.
    pub fn from_file(file_path: std::path::PathBuf) -> (editor: YamlEditor)
        ensures
            editor.source() == InputSource::File(file_path),
            editor.destination() matches OutputDestination::File(path) && path@ == path_text(
                file_path,
            ),
    {
        let file_path_str = path_to_text(&file_path);
        YamlEditor::new(InputSource::File(file_path), OutputDestination::File(file_path_str))
    }

    /// An editor that reads standard input and writes to standard output.
    pub fn from_stdin() -> (editor: YamlEditor)
        ensures
            editor.source() == InputSource::Stdin,
            editor.destination() == OutputDestination::Stdout,
    {
        YamlEditor::new(InputSource::Stdin, OutputDestination::Stdout)
    }

    /// Where the document is read from.
    pub fn input_source(&self) -> (source: &InputSource)
        ensures
            *source == self.source(),
    {
        &self.input_source
    }

    /// Where the edited document is written to.
    pub fn output_destination(&self) -> (destination: &OutputDestination)
        ensures
            *destination == self.destination(),
    {
        &self.output_destination
    }

    /// The state and the action that every edit starts with.
    pub fn begin(&self) -> (start: (EditState, Action))
        ensures
            start.0 == EditState::Opening,
            start.1 == Action::ReadInput,
    {
        (EditState::Opening, Action::ReadInput)
    }

    /// The error for input that could not be read, by the kind of source.
    pub open spec fn read_failure(&self, error: std::io::Error) -> YamlEditorError {
        match self.source() {
            InputSource::File(_) => YamlEditorError::FileIO(error),
            InputSource::Stdin => YamlEditorError::StdinRead(error),
        }
    }

    /// Whether a state and an action may follow on a state and an event.
    ///
    /// - `Opening`: input that cannot be read, cannot be decoded as YAML or
    ///   cannot be written as JSON ends the edit. Otherwise the session is
    ///   created on the decoded document, and the temporary file is to be
    ///   filled with its JSON text.
    /// - `Created`: once the temporary file is filled, the editing program is
    ///   to run.
    /// - `Editing`: once the editing program has ended, with whatever exit
    ///   status, the temporary file is to be read back. Only a program that
    ///   could not be run ends the edit.
    /// - `Validating`: text that is the same document as the one read ends the
    ///   edit with nothing written; text that is another document has that
    ///   document written as YAML to the destination; text that is not JSON
    ///   is reported to the user, together with the error that decoding it
    ///   gives.
    /// - `Retrying`: once the user has answered, the editing program is to run
    ///   again, on the temporary file as it is.
    /// - `Committing`: once the document is written, the edit has ended.
    /// - Where an action fails, the edit ends with the error of that action.
    ///   An edit that has ended stays as it is.
    pub open spec fn steps(
        &self,
        state: EditState,
        event: Event,
        next: EditState,
        action: Action,
    ) -> bool {
        match state {
            EditState::Opening => match event {
                Event::Failed(error) | Event::Exited(error) => {
                    &&& next == EditState::Fatal(self.read_failure(error))
                    &&& action == Action::Finish
                },
                Event::Completed(text) => match yaml_parse(text@) {
                    Err(message) => {
                        &&& next matches EditState::Fatal(YamlEditorError::YamlRead(error))
                        &&& yaml_error_text(error) == message
                        &&& action == Action::Finish
                    },
                    Ok(tree) => match json_pretty(tree) {
                        None => {
                            &&& next matches EditState::Fatal(
                                YamlEditorError::JsonSerialization(_),
                            )
                            &&& action == Action::Finish
                        },
                        Some(json) => {
                            &&& next matches EditState::Created(session)
                            &&& session.original()@ == tree
                            &&& session.original().wf()
                            &&& session.destination() == self.destination()
                            &&& action matches Action::PopulateBuffer(buffer)
                            &&& buffer@ == json
                        },
                    },
                },
            },
            EditState::Created(session) => match event {
                Event::Failed(error) | Event::Exited(error) => {
                    &&& next == EditState::Fatal(YamlEditorError::TempFile(error))
                    &&& action == Action::Finish
                },
                Event::Completed(_) => {
                    &&& next == EditState::Editing(session)
                    &&& action == Action::LaunchEditor
                },
            },
            EditState::Editing(session) => match event {
                Event::Failed(error) => {
                    &&& next == EditState::Fatal(YamlEditorError::EditorExecution(error))
                    &&& action == Action::Finish
                },
                Event::Completed(_) | Event::Exited(_) => {
                    &&& next == EditState::Validating(session)
                    &&& action == Action::ReadBuffer
                },
            },
            EditState::Validating(session) => match event {
                Event::Failed(error) | Event::Exited(error) => {
                    &&& next == EditState::Fatal(YamlEditorError::TempFile(error))
                    &&& action == Action::Finish
                },
                Event::Completed(text) => match json_parse(text@) {
                    Err(message) => {
                        &&& next == EditState::Retrying(session)
                        &&& action matches Action::ReportParseError(error, shown)
                        &&& json_error_text(error) == message
                        &&& shown == text
                    },
                    Ok(tree) => if tree.same(session.original()@) {
                        &&& next == EditState::Unchanged
                        &&& action == Action::Finish
                    } else {
                        match yaml_text(tree) {
                            None => {
                                &&& next matches EditState::Fatal(YamlEditorError::YamlRead(_))
                                &&& action == Action::Finish
                            },
                            Some(yaml) => {
                                &&& next == EditState::Committing(session)
                                &&& action matches Action::WriteOutput(destination, written)
                                &&& destination == session.destination()
                                &&& written@ == yaml
                            },
                        }
                    },
                },
            },
            EditState::Retrying(session) => match event {
                Event::Failed(error) | Event::Exited(error) => {
                    &&& next == EditState::Fatal(YamlEditorError::FileIO(error))
                    &&& action == Action::Finish
                },
                Event::Completed(_) => {
                    &&& next == EditState::Editing(session)
                    &&& action == Action::LaunchEditor
                },
            },
            EditState::Committing(session) => match event {
                Event::Failed(error) | Event::Exited(error) => {
                    &&& next == EditState::Fatal(write_failure(session.destination(), error))
                    &&& action == Action::Finish
                },
                Event::Completed(_) => {
                    &&& next == EditState::Committed
                    &&& action == Action::Finish
                },
            },
            EditState::Unchanged | EditState::Committed | EditState::Fatal(_) => {
                &&& next == state
                &&& action == Action::Finish
            },
        }
    }

    /// Takes one step of the edit: given the state and what the last action
    /// returned, gives the next state and the next action.
    pub fn edit(&self, state: EditState, event: Event) -> (step: (EditState, Action))
        ensures
            self.steps(state, event, step.0, step.1),
    {
        match state {
            EditState::Opening => match event {
                Event::Failed(error) | Event::Exited(error) => {
                    let failure = match &self.input_source {
                        InputSource::File(_) => YamlEditorError::FileIO(error),
                        InputSource::Stdin => YamlEditorError::StdinRead(error),
                    };
                    (EditState::Fatal(failure), Action::Finish)
                },
                Event::Completed(text) => {
                    let destination = self.output_destination.clone();
                    match EditSession::new(text.as_str(), destination) {
                        Ok((session, buffer)) => (
                            EditState::Created(session),
                            Action::PopulateBuffer(buffer),
                        ),
                        Err(error) => (EditState::Fatal(error), Action::Finish),
                    }
                },
            },
            EditState::Created(session) => match event {
                Event::Failed(error) | Event::Exited(error) => (
                    EditState::Fatal(YamlEditorError::TempFile(error)),
                    Action::Finish,
                ),
                Event::Completed(_) => (EditState::Editing(session), Action::LaunchEditor),
            },
            EditState::Editing(session) => match event {
                Event::Failed(error) => (
                    EditState::Fatal(YamlEditorError::EditorExecution(error)),
                    Action::Finish,
                ),
                Event::Completed(_) | Event::Exited(_) => (
                    EditState::Validating(session),
                    Action::ReadBuffer,
                ),
            },
            EditState::Validating(session) => match event {
                Event::Failed(error) | Event::Exited(error) => (
                    EditState::Fatal(YamlEditorError::TempFile(error)),
                    Action::Finish,
                ),
                Event::Completed(text) => {
                    let parsed = session.try_parse_json(text.as_str());
                    let verdict = session.review(parsed);
                    settle(session, verdict, text)
                },
            },
            EditState::Retrying(session) => match event {
                Event::Failed(error) | Event::Exited(error) => (
                    EditState::Fatal(YamlEditorError::FileIO(error)),
                    Action::Finish,
                ),
                Event::Completed(_) => (EditState::Editing(session), Action::LaunchEditor),
            },
            EditState::Committing(session) => match event {
                Event::Failed(error) | Event::Exited(error) => {
                    let failure = match session.output_destination() {
                        OutputDestination::File(_) => YamlEditorError::FileIO(error),
                        OutputDestination::Stdout => YamlEditorError::StdoutWrite(error),
                    };
                    (EditState::Fatal(failure), Action::Finish)
                },
                Event::Completed(_) => (EditState::Committed, Action::Finish),
            },
            EditState::Unchanged => (EditState::Unchanged, Action::Finish),
            EditState::Committed => (EditState::Committed, Action::Finish),
            EditState::Fatal(error) => (EditState::Fatal(error), Action::Finish),
        }
    }

    /// Where to wait for the user's answer to a reported error: on the
    /// terminal where the document itself came from standard input, which has
    /// then been read to its end; on standard input otherwise.
    pub fn prompt_channel(&self) -> (channel: PromptChannel)
        ensures
            channel == if self.source() is Stdin {
                PromptChannel::Terminal
            } else {
                PromptChannel::StandardInput
            },
    {
        match &self.input_source {
            InputSource::Stdin => PromptChannel::Terminal,
            InputSource::File(_) => PromptChannel::StandardInput,
        }
    }

    /// Whether the outcome is announced on standard output: only where the
    /// document goes to a file, so that piped output stays clean.
    pub fn is_file_mode(&self) -> (announce: bool)
        ensures
            announce == (self.destination() is File),
    {
        self.output_destination.is_file()
    }

    /// What to print on standard output for an outcome, if anything.
    pub fn notice(&self, result: &Result<(), YamlEditorError>) -> (notice: Option<Notice>)
        ensures
            notice == self.announced(*result),
    {
        if !self.is_file_mode() {
            return None;
        }
        match result {
            Ok(_) => Some(Notice::Updated),
            Err(YamlEditorError::NoChanges) => Some(Notice::NoChanges),
            Err(_) => None,
        }
    }

    /// The notice for each outcome: none where the document goes to standard
    /// output, and none for a failure.
    pub open spec fn announced(&self, result: Result<(), YamlEditorError>) -> Option<Notice> {
        if !(self.destination() is File) {
            None
        } else {
            match result {
                Ok(_) => Some(Notice::Updated),
                Err(YamlEditorError::NoChanges) => Some(Notice::NoChanges),
                Err(_) => None,
            }
        }
    }
}

/// The error for a document that could not be written, by the kind of
/// destination.
pub open spec fn write_failure(destination: OutputDestination, error: std::io::Error) -> YamlEditorError {
    match destination {
        OutputDestination::File(_) => YamlEditorError::FileIO(error),
        OutputDestination::Stdout => YamlEditorError::StdoutWrite(error),
    }
}

/// Whether a state and an action may follow once the edited text has been
/// judged: an unchanged document ends the edit, text that is not JSON is
/// reported to the user together with its error, an error ends the edit, and a
/// changed document is written as YAML to the session's destination, or ends
/// the edit where it cannot be written as YAML.
pub open spec fn settles(
    session: EditSession,
    verdict: Verdict,
    text: String,
    next: EditState,
    action: Action,
) -> bool {
    match verdict {
        Verdict::Unchanged => next == EditState::Unchanged && action == Action::Finish,
        Verdict::Retry(error) => {
            &&& next == EditState::Retrying(session)
            &&& action == Action::ReportParseError(error, text)
        },
        Verdict::Fatal(error) => next == EditState::Fatal(error) && action == Action::Finish,
        Verdict::Changed(edited) => match yaml_text(edited@) {
            None => {
                &&& next matches EditState::Fatal(YamlEditorError::YamlRead(_))
                &&& action == Action::Finish
            },
            Some(yaml) => {
                &&& next == EditState::Committing(session)
                &&& action matches Action::WriteOutput(destination, written)
                &&& destination == session.destination()
                &&& written@ == yaml
            },
        },
    }
}

/// Gives the state and the action that follow once the edited text has been
/// judged.
pub fn settle(session: EditSession, verdict: Verdict, text: String) -> (step: (EditState, Action))
    ensures
        settles(session, verdict, text, step.0, step.1),
{
    match verdict {
        Verdict::Unchanged => (EditState::Unchanged, Action::Finish),
        Verdict::Retry(error) => (
            EditState::Retrying(session),
            Action::ReportParseError(error, text),
        ),
        Verdict::Fatal(error) => (EditState::Fatal(error), Action::Finish),
        Verdict::Changed(edited) => match session.save_yaml(&edited) {
            Ok(yaml) => {
                let destination = session.output_destination().clone();
                (EditState::Committing(session), Action::WriteOutput(destination, yaml))
            },
            Err(error) => (EditState::Fatal(error), Action::Finish),
        },
    }
}

/// An edit whose text comes back as the same document as the one read ends
/// as `Unchanged`, and asks for nothing to be written.
pub proof fn lemma_unchanged_text_writes_nothing(
    editor: YamlEditor,
    session: EditSession,
    text: String,
    next: EditState,
    action: Action,
)
    requires
        editor.steps(EditState::Validating(session), Event::Completed(text), next, action),
        json_parse(text@) matches Ok(tree) && tree.same(session.original()@),
    ensures
        next == EditState::Unchanged,
        action == Action::Finish,
        !(action is WriteOutput),
{
}

/// A temporary file that comes back as it was filled ends the edit as
/// `Unchanged`, for every document whose JSON text decodes to the same
/// document again. That it does is the decoders' and encoders' to keep, and is
/// taken as given here.
pub proof fn lemma_untouched_buffer_is_unchanged(
    editor: YamlEditor,
    input: String,
    session: EditSession,
    buffer: String,
    next: EditState,
    action: Action,
)
    requires
        editor.steps(
            EditState::Opening,
            Event::Completed(input),
            EditState::Created(session),
            Action::PopulateBuffer(buffer),
        ),
        yaml_parse(input@) matches Ok(read) && json_parse(buffer@) matches Ok(edited)
            && edited.same(read),
        editor.steps(EditState::Validating(session), Event::Completed(buffer), next, action),
    ensures
        next == EditState::Unchanged,
        action == Action::Finish,
{
}

/// No step that ends in `Unchanged` asks for anything to be written.
pub proof fn lemma_unchanged_never_writes(
    editor: YamlEditor,
    state: EditState,
    event: Event,
    next: EditState,
    action: Action,
)
    requires
        editor.steps(state, event, next, action),
        next is Unchanged,
    ensures
        action == Action::Finish,
{
}

/// After text that is not JSON, the session is kept as it is, the user is
/// told, and the editing program then runs again: no step but the first one of
/// an edit asks for the temporary file to be filled, so what the user typed
/// stays in it.
pub proof fn lemma_retry_keeps_the_buffer(
    editor: YamlEditor,
    session: EditSession,
    text: String,
    reported: EditState,
    report: Action,
    answer: Event,
    reopened: EditState,
    reopen: Action,
)
    requires
        json_parse(text@) is Err,
        editor.steps(EditState::Validating(session), Event::Completed(text), reported, report),
        answer is Completed,
        editor.steps(reported, answer, reopened, reopen),
    ensures
        reported == EditState::Retrying(session),
        report matches Action::ReportParseError(error, shown) && shown == text,
        json_parse(text@) matches Err(message) && report matches Action::ReportParseError(error, _)
            && json_error_text(error) == message,
        reopened == EditState::Editing(session),
        reopen == Action::LaunchEditor,
{
}

/// The temporary file is filled once, by the step that creates the session.
pub proof fn lemma_buffer_filled_once(
    editor: YamlEditor,
    state: EditState,
    event: Event,
    next: EditState,
    action: Action,
)
    requires
        editor.steps(state, event, next, action),
        action is PopulateBuffer,
    ensures
        state is Opening,
        next is Created,
{
}

/// A session, once created, is never changed: every later state that holds a
/// session holds the same one.
pub proof fn lemma_session_is_kept(
    editor: YamlEditor,
    state: EditState,
    event: Event,
    next: EditState,
    action: Action,
)
    requires
        editor.steps(state, event, next, action),
        !(state is Opening),
    ensures
        session_of(next) matches Some(kept) ==> session_of(state) == Some(kept),
{
}

/// The session that a state holds, if it holds one.
pub open spec fn session_of(state: EditState) -> Option<EditSession> {
    match state {
        EditState::Created(session)
        | EditState::Editing(session)
        | EditState::Validating(session)
        | EditState::Committing(session)
        | EditState::Retrying(session) => Some(session),
        _ => None,
    }
}

} // verus!
