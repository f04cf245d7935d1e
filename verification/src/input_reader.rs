//! Where lines come from.

use vstd::prelude::*;

verus! {

/// The error of a failed read.  Its inside is not looked at: the loop only
/// hands it on.
#[verifier::external_type_specification]
#[verifier::external_body]
pub struct ExIoError(std::io::Error);

/// What a reader delivers when it does not fail.
#[derive(Debug)]
pub enum InputResult {
    /// One line of raw text.
    Input(String),
    /// The user cancelled the line; there is no input this turn.
    Interrupted,
    /// The input is exhausted.
    Eof,
}

/// A source of lines.
pub trait InputReader {
    /// Whether the reader may be asked for a line.  A reader that says
    /// nothing else may always be asked.
    open spec fn wf(&self) -> bool {
        true
    }

    /// Whether a read that shows `prompt` may leave the reader as `next`
    /// and deliver `outcome`.
    /// A reader that says nothing else may do anything.
    open spec fn reads(
        &self,
        prompt: Seq<char>,
        next: &Self,
        outcome: Result<InputResult, std::io::Error>,
    ) -> bool {
        true
    }

    /// Shows `prompt` and reads one line.
    fn read(&mut self, prompt: &str) -> (outcome: Result<InputResult, std::io::Error>)
        requires
            old(self).wf(),
        ensures
            final(self).wf(),
            old(self).reads(prompt@, final(self), outcome),
    ;
}

/// Any function from a prompt to an outcome is a reader.
impl<F> InputReader for F where F: FnMut(&str) -> Result<InputResult, std::io::Error> {
    /// The function accepts every prompt.
    open spec fn wf(&self) -> bool {
        forall|prompt: &str| call_requires(*self, (prompt,))
    }

    /// The function may return `outcome` for `prompt`.
    open spec fn reads(
        &self,
        prompt: Seq<char>,
        next: &Self,
        outcome: Result<InputResult, std::io::Error>,
    ) -> bool {
        exists|shown: &str| shown@ == prompt && call_ensures(*self, (shown,), outcome)
    }

    fn read(&mut self, prompt: &str) -> (outcome: Result<InputResult, std::io::Error>) {
        self(prompt)
    }
}

/// A function that accepts every prompt may be asked for a line.
pub proof fn function_reader_wf<F>(f: F) where F: FnMut(&str) -> Result<InputResult, std::io::Error>
    requires
        forall|prompt: &str| call_requires(f, (prompt,)),
    ensures
        InputReader::wf(&f),
{
}

/// What a function delivers as a reader is what it may return for the
/// prompt.
pub proof fn function_reader_reads<F>(
    f: F,
    prompt: Seq<char>,
    next: F,
    outcome: Result<InputResult, std::io::Error>,
) where F: FnMut(&str) -> Result<InputResult, std::io::Error>
    requires
        InputReader::reads(&f, prompt, &next, outcome),
    ensures
        exists|shown: &str| shown@ == prompt && call_ensures(f, (shown,), outcome),
{
}

/// What a reader on a stream answers after it has asked the stream for a
/// line: the end of input where the stream gave nothing, not even the end
/// of a line, and else the line as it was read.
pub fn line_outcome(count: usize, line: String) -> (outcome: InputResult)
    ensures
        count == 0 ==> outcome == InputResult::Eof,
        count > 0 ==> outcome == InputResult::Input(line),
{
    if count == 0 {
        InputResult::Eof
    } else {
        InputResult::Input(line)
    }
}

/// Why a line editor came back without a line.
#[derive(Clone, Copy, Debug, PartialEq, Eq, Structural)]
pub enum EditorStop {
    /// An I/O error of the terminal.
    Io,
    /// End of input (Ctrl-D).
    Eof,
    /// The interrupt key (Ctrl-C).
    Interrupted,
    /// A failed system call.
    Errno,
    /// The window changed its size.
    WindowResized,
    /// Anything else.
    Other,
}

/// The kind under which a failure without an I/O error of its own is
/// wrapped into one.
#[derive(Clone, Copy, Debug, PartialEq, Eq, Structural)]
pub enum WrapKind {
    Other,
    Interrupted,
}

/// How a failure of a line editor becomes an I/O error.
#[derive(Clone, Copy, Debug, PartialEq, Eq, Structural)]
pub enum IoErrorPlan {
    /// The failure holds an I/O error: that error is handed on.
    Inner,
    /// The failure holds a system error number: the I/O error of that number.
    FromErrno,
    /// The failure is wrapped into a new I/O error of the given kind.
    Wrap(WrapKind),
}

/// The I/O error that stands for a failure of a line editor.
pub open spec fn io_error_plan_of(stop: EditorStop) -> IoErrorPlan {
    match stop {
        EditorStop::Io => IoErrorPlan::Inner,
        EditorStop::Errno => IoErrorPlan::FromErrno,
        EditorStop::WindowResized => IoErrorPlan::Wrap(WrapKind::Other),
        _ => IoErrorPlan::Wrap(WrapKind::Interrupted),
    }
}

/// What the loop is told when a line editor came back without a line: the
/// two signals that are no errors, or the I/O error to fail with.
pub open spec fn editor_outcome_of(stop: EditorStop) -> Result<InputResult, IoErrorPlan> {
    match stop {
        EditorStop::Eof => Ok(InputResult::Eof),
        EditorStop::Interrupted => Ok(InputResult::Interrupted),
        _ => Err(io_error_plan_of(stop)),
    }
}

/// Decides how a failure of a line editor is turned into an I/O error.
pub fn io_error_plan(stop: EditorStop) -> (plan: IoErrorPlan)
    ensures
        plan == io_error_plan_of(stop),
{
    match stop {
        EditorStop::Io => IoErrorPlan::Inner,
        EditorStop::Errno => IoErrorPlan::FromErrno,
        EditorStop::WindowResized => IoErrorPlan::Wrap(WrapKind::Other),
        _ => IoErrorPlan::Wrap(WrapKind::Interrupted),
    }
}

/// Decides what a reader built on a line editor answers when the editor
/// came back without a line.
pub fn editor_outcome(stop: EditorStop) -> (outcome: Result<InputResult, IoErrorPlan>)
    ensures
        outcome == editor_outcome_of(stop),
{
    match stop {
        EditorStop::Eof => Ok(InputResult::Eof),
        EditorStop::Interrupted => Ok(InputResult::Interrupted),
        _ => Err(io_error_plan(stop)),
    }
}

} // verus!
