use cloop::{editor_outcome, io_error_plan, line_outcome, tokenize, words_or_complaint};
use cloop::{EditorStop, InputResult, IoErrorPlan, WrapKind};

fn words(list: &[&str]) -> Vec<String> {
    list.iter().map(|w| w.to_string()).collect()
}

#[test]
fn tokenize_splits_at_blanks() {
    assert_eq!(tokenize("echo hi"), Ok(words(&["echo", "hi"])));
    assert_eq!(tokenize("  add   1\t2 "), Ok(words(&["add", "1", "2"])));
}

#[test]
fn tokenize_minds_quotes_and_escapes() {
    assert_eq!(tokenize("echo \"a b\" 'c d'"), Ok(words(&["echo", "a b", "c d"])));
    assert_eq!(tokenize("say a\\ b"), Ok(words(&["say", "a b"])));
    assert_eq!(tokenize("x \"\""), Ok(words(&["x", ""])));
}

#[test]
fn tokenize_of_nothing_is_no_words() {
    assert_eq!(tokenize(""), Ok(Vec::new()));
    assert_eq!(tokenize("   "), Ok(Vec::new()));
}

#[test]
fn tokenize_refuses_open_quotes() {
    assert_eq!(tokenize("echo \"open"), Err("Invalid quoting".to_string()));
    assert_eq!(tokenize("echo 'open"), Err("Invalid quoting".to_string()));
    assert_eq!(tokenize("echo trailing\\"), Err("Invalid quoting".to_string()));
}

#[test]
fn words_or_complaint_keeps_words() {
    assert_eq!(words_or_complaint(Some(words(&["a", "b"]))), Ok(words(&["a", "b"])));
    assert_eq!(words_or_complaint(Some(Vec::new())), Ok(Vec::new()));
    assert_eq!(words_or_complaint(None), Err("Invalid quoting".to_string()));
}

#[test]
fn editor_signals_are_no_errors() {
    assert!(matches!(editor_outcome(EditorStop::Eof), Ok(InputResult::Eof)));
    assert!(matches!(editor_outcome(EditorStop::Interrupted), Ok(InputResult::Interrupted)));
}

#[test]
fn editor_failures_become_io_errors() {
    assert!(matches!(editor_outcome(EditorStop::Io), Err(IoErrorPlan::Inner)));
    assert!(matches!(editor_outcome(EditorStop::Errno), Err(IoErrorPlan::FromErrno)));
    assert!(matches!(editor_outcome(EditorStop::WindowResized), Err(IoErrorPlan::Wrap(WrapKind::Other))));
    assert!(matches!(editor_outcome(EditorStop::Other), Err(IoErrorPlan::Wrap(WrapKind::Interrupted))));
}

#[test]
fn io_error_plan_of_each_stop() {
    assert_eq!(io_error_plan(EditorStop::Io), IoErrorPlan::Inner);
    assert_eq!(io_error_plan(EditorStop::Errno), IoErrorPlan::FromErrno);
    assert_eq!(io_error_plan(EditorStop::WindowResized), IoErrorPlan::Wrap(WrapKind::Other));
    assert_eq!(io_error_plan(EditorStop::Other), IoErrorPlan::Wrap(WrapKind::Interrupted));
    // outside of a read, the two signals are failures like any other
    assert_eq!(io_error_plan(EditorStop::Eof), IoErrorPlan::Wrap(WrapKind::Interrupted));
    assert_eq!(io_error_plan(EditorStop::Interrupted), IoErrorPlan::Wrap(WrapKind::Interrupted));
}

#[test]
fn line_outcome_of_an_exhausted_stream_is_the_end() {
    assert!(matches!(line_outcome(0, String::new()), InputResult::Eof));
}

#[test]
fn line_outcome_keeps_the_line_as_read() {
    assert!(matches!(line_outcome(8, "echo hi\n".to_string()), InputResult::Input(ref l) if l == "echo hi\n"));
    // an empty line still has its end
    assert!(matches!(line_outcome(1, "\n".to_string()), InputResult::Input(ref l) if l == "\n"));
    // the last line of a stream may lack it
    assert!(matches!(line_outcome(4, "exit".to_string()), InputResult::Input(ref l) if l == "exit"));
}
