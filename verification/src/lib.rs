//! A generic interactive command loop.
//!
//! A [`Shell`] owns a prompt, a context and three collaborators: an
//! [`InputReader`] that produces one line per call, an [`InputParser`] that
//! turns the words of a line into typed arguments, and a [`Handler`] that
//! acts on those arguments and tells the loop what to do next.  The loop
//! knows nothing of how lines are obtained, parsed or handled; what each
//! collaborator may do is stated by a relation of its trait, and the
//! contracts of the loop are stated over those relations.
//!
//! The loop splits each line into words itself, as a shell does, before the
//! parser sees it.  It never prints: [`Shell::step`] takes one turn and
//! hands back what the user is to be told, and [`Shell::run`] takes a
//! bounded number of turns and collects those messages.

pub mod guarantees;
pub mod input_parser;
pub mod input_reader;
pub mod shell;

pub use input_parser::{multicall_root, tokenize, words_or_complaint, InputParser};
pub use input_reader::{
    editor_outcome, io_error_plan, line_outcome, EditorStop, InputReader, InputResult,
    IoErrorPlan, WrapKind,
};
pub use shell::{Handler, LoopState, Shell, ShellAction, ShellResult, Turn};
