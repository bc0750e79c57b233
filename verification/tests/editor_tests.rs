use std::path::{Path, PathBuf};

use yaml_editor::editor::{
    exit_code, Action, EditState, Event, Notice, PromptChannel, YamlEditor,
};
use yaml_editor::endpoint::{InputSource, OutputDestination};
use yaml_editor::error::YamlEditorError;

/// What a simulated edit did: the actions it was asked for, by name, what the
/// temporary file held at the end, what was written where, and the outcome.
struct Run {
    actions: Vec<&'static str>,
    buffer: Option<String>,
    fills: usize,
    written: Vec<(OutputDestination, String)>,
    result: Option<Result<(), YamlEditorError>>,
}

fn failure() -> std::io::Error {
    std::io::Error::new(std::io::ErrorKind::Other, "failed")
}

/// Carries an edit through as a caller would, with a string in place of the
/// temporary file. `edits` holds what the user leaves in the file each time
/// the editing program runs (`None`: the file is left as it is). `fail_at`
/// names the action that fails.
fn simulate(editor: &YamlEditor, input: &str, edits: Vec<Option<&str>>, fail_at: Option<&str>) -> Run {
    let mut run = Run { actions: vec![], buffer: None, fills: 0, written: vec![], result: None };
    let mut edits = edits.into_iter();
    let (mut state, mut action) = editor.begin();
    for _ in 0..100 {
        let (name, done) = match action {
            Action::ReadInput => ("ReadInput", Event::Completed(input.to_string())),
            Action::PopulateBuffer(text) => {
                run.fills += 1;
                run.buffer = Some(text);
                ("PopulateBuffer", Event::Completed(String::new()))
            }
            Action::LaunchEditor => {
                if let Some(Some(text)) = edits.next() {
                    run.buffer = Some(text.to_string());
                }
                ("LaunchEditor", Event::Completed(String::new()))
            }
            Action::ReadBuffer => ("ReadBuffer", Event::Completed(run.buffer.clone().unwrap())),
            Action::ReportParseError(_, _) => ("ReportParseError", Event::Completed(String::new())),
            Action::WriteOutput(destination, text) => {
                run.written.push((destination, text));
                ("WriteOutput", Event::Completed(String::new()))
            }
            Action::Finish => {
                run.actions.push("Finish");
                run.result = state.outcome();
                return run;
            }
        };
        run.actions.push(name);
        let event = if fail_at == Some(name) {
            if name == "WriteOutput" {
                run.written.pop();
            }
            Event::Failed(failure())
        } else {
            done
        };
        let step = editor.edit(state, event);
        state = step.0;
        action = step.1;
    }
    panic!("the edit did not end");
}

#[test]
fn scenario_unchanged_document_is_not_written() {
    let editor = YamlEditor::from_file(PathBuf::from("doc.yaml"));
    let run = simulate(&editor, "a: 1\nb: [2,3]", vec![Some("{\"a\":1,\"b\":[2,3]}")], None);
    assert!(matches!(run.result, Some(Err(YamlEditorError::NoChanges))));
    assert!(run.written.is_empty());
    assert_eq!(
        run.actions,
        vec!["ReadInput", "PopulateBuffer", "LaunchEditor", "ReadBuffer", "Finish"]
    );
}

#[test]
fn scenario_untouched_buffer_is_not_written() {
    let editor = YamlEditor::from_file(PathBuf::from("doc.yaml"));
    let run = simulate(&editor, "a: 1\nb: [2,3]", vec![None], None);
    assert!(matches!(run.result, Some(Err(YamlEditorError::NoChanges))));
    assert!(run.written.is_empty());
    assert_eq!(run.buffer.as_deref(), Some("{\n  \"a\": 1,\n  \"b\": [\n    2,\n    3\n  ]\n}"));
}

#[test]
fn scenario_changed_document_is_committed() {
    let editor = YamlEditor::from_file(PathBuf::from("doc.yaml"));
    let run = simulate(&editor, "a: 1", vec![Some("{\"a\":2}")], None);
    assert!(matches!(run.result, Some(Ok(()))));
    assert_eq!(run.written.len(), 1);
    assert!(matches!(&run.written[0].0, OutputDestination::File(path) if path == "doc.yaml"));
    assert_eq!(run.written[0].1, "a: 2\n");
    assert_eq!(
        run.actions,
        vec!["ReadInput", "PopulateBuffer", "LaunchEditor", "ReadBuffer", "WriteOutput", "Finish"]
    );
}

#[test]
fn scenario_truncated_json_is_retried_on_the_same_buffer() {
    let editor = YamlEditor::from_file(PathBuf::from("doc.yaml"));
    let (state, _) = editor.begin();
    let (state, action) = editor.edit(state, Event::Completed("a: 1".to_string()));
    assert!(matches!(action, Action::PopulateBuffer(_)));
    let (state, action) = editor.edit(state, Event::Completed(String::new()));
    assert!(matches!(state, EditState::Editing(_)));
    assert!(matches!(action, Action::LaunchEditor));
    let (state, action) = editor.edit(state, Event::Completed(String::new()));
    assert!(matches!(state, EditState::Validating(_)));
    assert!(matches!(action, Action::ReadBuffer));
    let (state, action) = editor.edit(state, Event::Completed("{\"a\":2".to_string()));
    assert!(matches!(state, EditState::Retrying(_)));
    assert!(matches!(action, Action::ReportParseError(_, _)));
    let (state, action) = editor.edit(state, Event::Completed(String::new()));
    assert!(matches!(state, EditState::Editing(_)));
    assert!(matches!(action, Action::LaunchEditor));
    let (state, action) = editor.edit(state, Event::Completed(String::new()));
    assert!(matches!(state, EditState::Validating(_)));
    assert!(matches!(action, Action::ReadBuffer));
}

#[test]
fn the_parse_error_is_the_one_that_the_decoder_reported() {
    let editor = YamlEditor::from_file(PathBuf::from("doc.yaml"));
    let (state, _) = editor.begin();
    let (state, _) = editor.edit(state, Event::Completed("a: 1".to_string()));
    let (state, _) = editor.edit(state, Event::Completed(String::new()));
    let (state, _) = editor.edit(state, Event::Completed(String::new()));
    let (_, action) = editor.edit(state, Event::Completed("{\"a\":2".to_string()));
    match action {
        Action::ReportParseError(error, text) => {
            assert_eq!(text, "{\"a\":2");
            assert!(error.is_eof());
            assert_eq!(error.line(), 1);
            assert_eq!(error.column(), 6);
        }
        other => panic!("unexpected action {:?}", other),
    }
}

#[test]
fn text_that_stays_malformed_is_retried_without_end() {
    let editor = YamlEditor::from_file(PathBuf::from("doc.yaml"));
    let (state, _) = editor.begin();
    let (state, _) = editor.edit(state, Event::Completed("a: 1".to_string()));
    let (mut state, _) = editor.edit(state, Event::Completed(String::new()));
    for _ in 0..50 {
        let (validating, _) = editor.edit(state, Event::Completed(String::new()));
        let (retrying, action) = editor.edit(validating, Event::Completed("{".to_string()));
        assert!(matches!(retrying, EditState::Retrying(_)));
        assert!(matches!(action, Action::ReportParseError(_, _)));
        let (editing, action) = editor.edit(retrying, Event::Completed(String::new()));
        assert!(matches!(action, Action::LaunchEditor));
        state = editing;
    }
    assert!(matches!(state, EditState::Editing(_)));
}

#[test]
fn scenario_truncated_json_then_fixed_is_committed() {
    let editor = YamlEditor::from_file(PathBuf::from("doc.yaml"));
    let run = simulate(&editor, "a: 1", vec![Some("{\"a\":2"), Some("{\"a\":2}")], None);
    assert!(matches!(run.result, Some(Ok(()))));
    assert_eq!(
        run.actions,
        vec!["ReadInput", "PopulateBuffer", "LaunchEditor", "ReadBuffer", "ReportParseError",
            "LaunchEditor", "ReadBuffer", "WriteOutput", "Finish"]
    );
    assert_eq!(run.fills, 1);
    assert_eq!(run.written.len(), 1);
    assert_eq!(run.written[0].1, "a: 2\n");
}

#[test]
fn scenario_piped_input_without_an_edit_prints_nothing() {
    let editor = YamlEditor::from_stdin();
    let run = simulate(&editor, "x: true", vec![None], None);
    assert!(matches!(run.result, Some(Err(YamlEditorError::NoChanges))));
    assert!(run.written.is_empty());
    let result = run.result.unwrap();
    assert!(editor.notice(&result).is_none());
    assert_eq!(exit_code(&result), 0);
}

#[test]
fn piped_input_with_an_edit_is_written_to_standard_output() {
    let editor = YamlEditor::from_stdin();
    let run = simulate(&editor, "x: true", vec![Some("{\"x\":false}")], None);
    assert!(matches!(run.result, Some(Ok(()))));
    assert_eq!(run.written.len(), 1);
    assert!(matches!(run.written[0].0, OutputDestination::Stdout));
    assert_eq!(run.written[0].1, "x: false\n");
    assert!(editor.notice(&run.result.unwrap()).is_none());
}

#[test]
fn many_retries_keep_the_buffer() {
    let editor = YamlEditor::from_file(PathBuf::from("doc.yaml"));
    let edits = vec![Some("{"), Some("{\"a\""), Some("{\"a\":"), Some("{\"a\":3}")];
    let run = simulate(&editor, "a: 1", edits, None);
    assert!(matches!(run.result, Some(Ok(()))));
    assert_eq!(run.fills, 1);
    assert_eq!(run.actions.iter().filter(|name| **name == "ReportParseError").count(), 3);
    assert_eq!(run.actions.iter().filter(|name| **name == "LaunchEditor").count(), 4);
    assert_eq!(run.written[0].1, "a: 3\n");
}

#[test]
fn unreadable_file_input_is_a_file_error() {
    let editor = YamlEditor::from_file(PathBuf::from("doc.yaml"));
    let run = simulate(&editor, "", vec![], Some("ReadInput"));
    assert!(matches!(run.result, Some(Err(YamlEditorError::FileIO(_)))));
    assert_eq!(run.actions, vec!["ReadInput", "Finish"]);
}

#[test]
fn unreadable_standard_input_is_a_stdin_error() {
    let editor = YamlEditor::from_stdin();
    let run = simulate(&editor, "", vec![], Some("ReadInput"));
    assert!(matches!(run.result, Some(Err(YamlEditorError::StdinRead(_)))));
}

#[test]
fn malformed_yaml_ends_the_edit_before_any_editing() {
    let editor = YamlEditor::from_file(PathBuf::from("doc.yaml"));
    let run = simulate(&editor, "a: [1", vec![], None);
    assert!(matches!(run.result, Some(Err(YamlEditorError::YamlRead(_)))));
    assert_eq!(run.actions, vec!["ReadInput", "Finish"]);
    assert_eq!(run.fills, 0);
}

#[test]
fn a_temporary_file_that_cannot_be_filled_is_a_temp_file_error() {
    let editor = YamlEditor::from_file(PathBuf::from("doc.yaml"));
    let run = simulate(&editor, "a: 1", vec![], Some("PopulateBuffer"));
    assert!(matches!(run.result, Some(Err(YamlEditorError::TempFile(_)))));
    assert_eq!(run.actions, vec!["ReadInput", "PopulateBuffer", "Finish"]);
}

#[test]
fn an_editor_that_cannot_run_is_an_editor_error() {
    let editor = YamlEditor::from_file(PathBuf::from("doc.yaml"));
    let run = simulate(&editor, "a: 1", vec![], Some("LaunchEditor"));
    assert!(matches!(run.result, Some(Err(YamlEditorError::EditorExecution(_)))));
    assert_eq!(run.actions, vec!["ReadInput", "PopulateBuffer", "LaunchEditor", "Finish"]);
}

#[test]
fn a_temporary_file_that_cannot_be_read_back_is_a_temp_file_error() {
    let editor = YamlEditor::from_file(PathBuf::from("doc.yaml"));
    let run = simulate(&editor, "a: 1", vec![Some("{\"a\":2}")], Some("ReadBuffer"));
    assert!(matches!(run.result, Some(Err(YamlEditorError::TempFile(_)))));
    assert!(run.written.is_empty());
}

#[test]
fn a_prompt_that_cannot_be_read_is_a_file_error() {
    let editor = YamlEditor::from_file(PathBuf::from("doc.yaml"));
    let run = simulate(&editor, "a: 1", vec![Some("{")], Some("ReportParseError"));
    assert!(matches!(run.result, Some(Err(YamlEditorError::FileIO(_)))));
    assert_eq!(
        run.actions,
        vec!["ReadInput", "PopulateBuffer", "LaunchEditor", "ReadBuffer", "ReportParseError",
            "Finish"]
    );
}

#[test]
fn a_file_that_cannot_be_written_is_a_file_error() {
    let editor = YamlEditor::from_file(PathBuf::from("doc.yaml"));
    let run = simulate(&editor, "a: 1", vec![Some("{\"a\":2}")], Some("WriteOutput"));
    assert!(matches!(run.result, Some(Err(YamlEditorError::FileIO(_)))));
}

#[test]
fn standard_output_that_cannot_be_written_is_a_stdout_error() {
    let editor = YamlEditor::from_stdin();
    let run = simulate(&editor, "a: 1", vec![Some("{\"a\":2}")], Some("WriteOutput"));
    assert!(matches!(run.result, Some(Err(YamlEditorError::StdoutWrite(_)))));
}

#[test]
fn an_edit_that_has_ended_stays_as_it_is() {
    let editor = YamlEditor::from_stdin();
    let (state, action) = editor.edit(EditState::Unchanged, Event::Completed("x".to_string()));
    assert!(matches!(state, EditState::Unchanged));
    assert!(matches!(action, Action::Finish));
    let (state, action) = editor.edit(EditState::Committed, Event::Failed(failure()));
    assert!(matches!(state, EditState::Committed));
    assert!(matches!(action, Action::Finish));
    let fatal = EditState::Fatal(YamlEditorError::FileIO(failure()));
    let (state, action) = editor.edit(fatal, Event::Completed(String::new()));
    assert!(matches!(state, EditState::Fatal(YamlEditorError::FileIO(_))));
    assert!(matches!(action, Action::Finish));
}

#[test]
fn begin_asks_for_the_input() {
    let editor = YamlEditor::from_stdin();
    let (state, action) = editor.begin();
    assert!(matches!(state, EditState::Opening));
    assert!(matches!(action, Action::ReadInput));
    assert!(!state.finished());
    assert!(state.outcome().is_none());
}

#[test]
fn only_the_three_last_states_are_finished() {
    assert!(EditState::Unchanged.finished());
    assert!(EditState::Committed.finished());
    assert!(EditState::Fatal(YamlEditorError::NoChanges).finished());
    assert!(!EditState::Opening.finished());
}

#[test]
fn outcome_of_each_last_state() {
    assert!(matches!(EditState::Committed.outcome(), Some(Ok(()))));
    assert!(matches!(EditState::Unchanged.outcome(), Some(Err(YamlEditorError::NoChanges))));
    let fatal = EditState::Fatal(YamlEditorError::TempFile(failure()));
    assert!(matches!(fatal.outcome(), Some(Err(YamlEditorError::TempFile(_)))));
}

#[test]
fn from_file_reads_and_writes_the_same_path() {
    let editor = YamlEditor::from_file(PathBuf::from("some/doc.yaml"));
    assert!(matches!(editor.input_source(), InputSource::File(path) if path.as_path() == Path::new("some/doc.yaml")));
    assert!(matches!(editor.output_destination(), OutputDestination::File(path) if path == "some/doc.yaml"));
    assert!(editor.is_file_mode());
    assert!(editor.input_source().is_file());
}

#[test]
fn from_stdin_reads_and_writes_the_standard_streams() {
    let editor = YamlEditor::from_stdin();
    assert!(matches!(editor.input_source(), InputSource::Stdin));
    assert!(matches!(editor.output_destination(), OutputDestination::Stdout));
    assert!(!editor.is_file_mode());
    assert!(!editor.input_source().is_file());
}

#[test]
fn new_keeps_source_and_destination() {
    let editor = YamlEditor::new(InputSource::Stdin, OutputDestination::File("out.yaml".to_string()));
    assert!(matches!(editor.input_source(), InputSource::Stdin));
    assert!(matches!(editor.output_destination(), OutputDestination::File(path) if path == "out.yaml"));
    let run = simulate(&editor, "a: 1", vec![Some("[]")], None);
    assert!(matches!(&run.written[0].0, OutputDestination::File(path) if path == "out.yaml"));
    assert_eq!(run.written[0].1, "[]\n");
}

#[test]
fn a_copied_destination_is_the_same_destination() {
    let file = OutputDestination::File("out.yaml".to_string());
    assert!(matches!(file.clone(), OutputDestination::File(path) if path == "out.yaml"));
    assert!(matches!(OutputDestination::Stdout.clone(), OutputDestination::Stdout));
    assert!(file.is_file());
    assert!(!OutputDestination::Stdout.is_file());
}

#[test]
fn notices_in_file_mode() {
    let editor = YamlEditor::from_file(PathBuf::from("doc.yaml"));
    assert!(matches!(editor.notice(&Ok(())), Some(Notice::Updated)));
    assert!(matches!(editor.notice(&Err(YamlEditorError::NoChanges)), Some(Notice::NoChanges)));
    assert!(editor.notice(&Err(YamlEditorError::FileIO(failure()))).is_none());
}

#[test]
fn no_notices_in_pipe_mode() {
    let editor = YamlEditor::from_stdin();
    assert!(editor.notice(&Ok(())).is_none());
    assert!(editor.notice(&Err(YamlEditorError::NoChanges)).is_none());
    assert!(editor.notice(&Err(YamlEditorError::FileIO(failure()))).is_none());
}

#[test]
fn notice_texts() {
    assert_eq!(Notice::Updated.text(), "YAML file updated successfully");
    assert_eq!(Notice::NoChanges.text(), "No changes made");
}

#[test]
fn exit_codes() {
    assert_eq!(exit_code(&Ok(())), 0);
    assert_eq!(exit_code(&Err(YamlEditorError::NoChanges)), 0);
    assert_eq!(exit_code(&Err(YamlEditorError::FileIO(failure()))), 1);
    assert_eq!(exit_code(&Err(YamlEditorError::EditorExecution(failure()))), 1);
    let error = serde_yaml::from_str::<serde_json::Value>("a: [").unwrap_err();
    assert_eq!(exit_code(&Err(YamlEditorError::YamlRead(error))), 1);
}

#[test]
fn a_float_zero_that_changes_its_sign_is_no_change() {
    let editor = YamlEditor::from_file(PathBuf::from("doc.yaml"));
    let run = simulate(&editor, "a: 0.0", vec![Some("{\"a\": -0.0}")], None);
    assert!(matches!(run.result, Some(Err(YamlEditorError::NoChanges))));
    assert!(run.written.is_empty());
    let run = simulate(&editor, "a: -0.0", vec![Some("{\"a\": 0.0}")], None);
    assert!(matches!(run.result, Some(Err(YamlEditorError::NoChanges))));
    assert!(run.written.is_empty());
    let run = simulate(&editor, "a: 0.0", vec![Some("{\"a\": -0}")], None);
    assert!(matches!(run.result, Some(Err(YamlEditorError::NoChanges))));
    assert!(run.written.is_empty());
}

#[test]
fn a_float_zero_turned_integer_is_a_change() {
    let editor = YamlEditor::from_file(PathBuf::from("doc.yaml"));
    let run = simulate(&editor, "a: 0.0", vec![Some("{\"a\": 0}")], None);
    assert!(matches!(run.result, Some(Ok(()))));
    assert_eq!(run.written[0].1, "a: 0\n");
}

#[test]
fn an_editor_that_exits_with_a_bad_status_is_no_failure() {
    let editor = YamlEditor::from_file(PathBuf::from("doc.yaml"));
    let (state, _) = editor.begin();
    let (state, _) = editor.edit(state, Event::Completed("a: 1".to_string()));
    let (state, action) = editor.edit(state, Event::Completed(String::new()));
    assert!(matches!(action, Action::LaunchEditor));
    let (state, action) = editor.edit(state, Event::Exited(failure()));
    assert!(matches!(state, EditState::Validating(_)));
    assert!(matches!(action, Action::ReadBuffer));
    let (state, action) =
        editor.edit(state, Event::Completed("{\n  \"a\": 1\n}".to_string()));
    assert!(matches!(state, EditState::Unchanged));
    assert!(matches!(action, Action::Finish));
}

#[test]
fn a_bad_ending_of_any_other_action_is_a_failure() {
    let editor = YamlEditor::from_file(PathBuf::from("doc.yaml"));
    let (state, _) = editor.edit(EditState::Opening, Event::Exited(failure()));
    assert!(matches!(state, EditState::Fatal(YamlEditorError::FileIO(_))));
    let (state, _) = editor.begin();
    let (created, _) = editor.edit(state, Event::Completed("a: 1".to_string()));
    let (state, action) = editor.edit(created, Event::Exited(failure()));
    assert!(matches!(state, EditState::Fatal(YamlEditorError::TempFile(_))));
    assert!(matches!(action, Action::Finish));
}

#[test]
fn the_prompt_is_read_from_the_terminal_in_pipe_mode() {
    assert!(matches!(YamlEditor::from_stdin().prompt_channel(), PromptChannel::Terminal));
    let editor = YamlEditor::from_file(PathBuf::from("doc.yaml"));
    assert!(matches!(editor.prompt_channel(), PromptChannel::StandardInput));
    let mixed = YamlEditor::new(InputSource::Stdin, OutputDestination::File("o".to_string()));
    assert!(matches!(mixed.prompt_channel(), PromptChannel::Terminal));
}

#[test]
fn from_file_writes_to_the_path_as_text() {
    let editor = YamlEditor::from_file(PathBuf::from("dir/d\u{e9}j\u{e0}.yaml"));
    assert!(matches!(editor.output_destination(), OutputDestination::File(path) if path == "dir/d\u{e9}j\u{e0}.yaml"));
    assert!(matches!(editor.input_source(), InputSource::File(path) if path.as_path() == Path::new("dir/d\u{e9}j\u{e0}.yaml")));
}
