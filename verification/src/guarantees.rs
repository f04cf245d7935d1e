//! What holds of every turn and of every run, whatever the reader, the
//! parser and the handler do.

use crate::input_parser::InputParser;
use crate::input_reader::{InputReader, InputResult};
use crate::shell::{Handler, Hop, LoopState, Shell, ShellAction, ShellResult, ShellView, Turn};
use vstd::prelude::*;

verus! {

impl<A, T, I: InputReader, P: InputParser<A, T>, H: Handler<A, T>> Shell<A, T, I, P, H> {
    /// A line that is rejected, by the splitting into words or by the
    /// parser, leaves the shell as it was and does not end the loop: the
    /// turn reports the rejection and the loop goes on under the same
    /// prompt.  This holds where the parser leaves the context alone
    /// whenever it rejects the words of this line.
    pub proof fn rejected_line_changes_nothing(
        pre: ShellView<T, I, P, H>,
        line: Seq<char>,
        post: ShellView<T, I, P, H>,
        message: String,
    )
        requires
            Self::digests(pre, line, post, Err(message)),
            crate::input_parser::shlex_split(line) matches Some(words) ==> forall|
                after: T,
                complaint: String,
            | #[trigger]
                pre.parser.parses(words, pre.context, after, Err(complaint)) ==> after
                    == pre.context,
        ensures
            post == pre,
            crate::shell::prompt_after(post.prompt, Err(message)) == pre.prompt,
            crate::shell::turn_after(Err(message)) == Turn::Report(message),
    {
    }

    /// A line on which the handler answers `Continue` leaves the prompt as
    /// it was, and the loop goes on in silence.
    pub proof fn continue_keeps_prompt(
        pre: ShellView<T, I, P, H>,
        line: Seq<char>,
        post: ShellView<T, I, P, H>,
    )
        requires
            Self::digests(pre, line, post, Ok(Ok(ShellAction::Continue))),
        ensures
            crate::shell::prompt_after(post.prompt, Ok(Ok(ShellAction::Continue))) == pre.prompt,
            crate::shell::turn_after(Ok(Ok(ShellAction::Continue))) == Turn::Proceed,
    {
    }

    /// Every turn reads under the prompt that the shell has when the turn
    /// begins: what a handler asks for in this turn is not shown before the
    /// next one.
    pub proof fn turn_reads_under_its_prompt(
        pre: ShellView<T, I, P, H>,
        post: ShellView<T, I, P, H>,
        result: Result<Turn, std::io::Error>,
    )
        requires
            Self::steps(pre, post, result),
        ensures
            exists|outcome: Result<InputResult, std::io::Error>, reader: I| #[trigger]
                pre.reader.reads(pre.prompt, &reader, outcome),
    {
    }

    /// When the handler answers `UpdatePrompt(p)`, the turn ends with `p`
    /// as the prompt, the loop goes on, and the read of the next turn shows
    /// exactly `p`.
    pub proof fn new_prompt_serves_next_read(
        pre: ShellView<T, I, P, H>,
        line: Seq<char>,
        mid: ShellView<T, I, P, H>,
        new_prompt: String,
        next: ShellView<T, I, P, H>,
        after: ShellView<T, I, P, H>,
        result: Result<Turn, std::io::Error>,
    )
        requires
            Self::digests(pre, line, mid, Ok(Ok(ShellAction::UpdatePrompt(new_prompt)))),
            next == (ShellView {
                prompt: crate::shell::prompt_after(
                    mid.prompt,
                    Ok(Ok(ShellAction::UpdatePrompt(new_prompt))),
                ),
                ..mid
            }),
            Self::steps(next, after, result),
        ensures
            mid.prompt == pre.prompt,
            next.prompt == new_prompt@,
            crate::shell::turn_after(Ok(Ok(ShellAction::UpdatePrompt(new_prompt))))
                == Turn::Proceed,
            exists|outcome: Result<InputResult, std::io::Error>, reader: I| #[trigger]
                next.reader.reads(new_prompt@, &reader, outcome),
    {
    }

    /// The end of input changes nothing and finishes the turn without an
    /// error.
    pub proof fn end_of_input_finishes(
        pre: ShellView<T, I, P, H>,
        post: ShellView<T, I, P, H>,
        result: Result<Turn, std::io::Error>,
    )
        requires
            Self::reacts(pre, Ok(InputResult::Eof), post, result),
        ensures
            post == pre,
            result == Ok::<Turn, std::io::Error>(Turn::Finish),
    {
    }

    /// Whatever turns came before: when the reader then announces the end
    /// of input, the run ends there, with success.
    pub proof fn end_of_input_ends_any_run(
        pre: ShellView<T, I, P, H>,
        path: Seq<Hop<T, I, P, H>>,
        reader: I,
        limit: nat,
    )
        requires
            Self::follows(pre, path),
            path.len() < limit,
            Self::before_turn(pre, path, path.len() as int).reader.reads(
                Self::before_turn(pre, path, path.len() as int).prompt,
                &reader,
                Ok(InputResult::Eof),
            ),
        ensures
            Self::runs(
                pre,
                limit,
                ShellView { reader, ..Self::before_turn(pre, path, path.len() as int) },
                Ok(LoopState::Terminated),
                crate::shell::said_along(path),
            ),
    {
        let last = Self::before_turn(pre, path, path.len() as int);
        let post = ShellView { reader, ..last };
        assert(Self::reacts(post, Ok(InputResult::Eof), post, Ok(Turn::Finish)));
        assert(Self::steps(last, post, Ok(Turn::Finish)));
        assert(Self::ends(last, path.len(), limit, post, Ok(LoopState::Terminated)));
    }

    /// An interruption changes neither prompt nor context, nor anything
    /// else, and the loop goes on.
    pub proof fn interruption_is_absorbed(
        pre: ShellView<T, I, P, H>,
        post: ShellView<T, I, P, H>,
        result: Result<Turn, std::io::Error>,
    )
        requires
            Self::reacts(pre, Ok(InputResult::Interrupted), post, result),
        ensures
            post == pre,
            result == Ok::<Turn, std::io::Error>(Turn::Proceed),
    {
    }

    /// A failed read ends the turn with the error of the reader, and
    /// changes nothing.
    pub proof fn failed_read_is_handed_on(
        pre: ShellView<T, I, P, H>,
        error: std::io::Error,
        post: ShellView<T, I, P, H>,
        result: Result<Turn, std::io::Error>,
    )
        requires
            Self::reacts(pre, Err(error), post, result),
        ensures
            post == pre,
            result == Err::<Turn, std::io::Error>(error),
    {
    }

    /// Whatever turns came before: when a read then fails, the run fails
    /// there, with the error of that read.
    pub proof fn failed_read_ends_any_run(
        pre: ShellView<T, I, P, H>,
        path: Seq<Hop<T, I, P, H>>,
        reader: I,
        error: std::io::Error,
        limit: nat,
    )
        requires
            Self::follows(pre, path),
            path.len() < limit,
            Self::before_turn(pre, path, path.len() as int).reader.reads(
                Self::before_turn(pre, path, path.len() as int).prompt,
                &reader,
                Err(error),
            ),
        ensures
            Self::runs(
                pre,
                limit,
                ShellView { reader, ..Self::before_turn(pre, path, path.len() as int) },
                Err(error),
                crate::shell::said_along(path),
            ),
    {
        let last = Self::before_turn(pre, path, path.len() as int);
        let post = ShellView { reader, ..last };
        assert(Self::reacts(post, Err(error), post, Err(error)));
        assert(Self::steps(last, post, Err(error)));
        assert(Self::ends(last, path.len(), limit, post, Err(error)));
    }

    /// A run ends with success only on a turn that finishes, and such a
    /// turn has read the end of input or has had `Exit` from the handler.
    pub proof fn run_ends_on_exit_or_end_of_input(
        pre: ShellView<T, I, P, H>,
        outcome: Result<InputResult, std::io::Error>,
        post: ShellView<T, I, P, H>,
    )
        requires
            Self::reacts(pre, outcome, post, Ok(Turn::Finish)),
        ensures
            match outcome {
                Ok(InputResult::Eof) => true,
                Ok(InputResult::Input(line)) => exists|mid: ShellView<T, I, P, H>| #[trigger]
                    Self::digests(pre, line@, mid, Ok(Ok(ShellAction::Exit))),
                _ => false,
            },
    {
        if let Ok(InputResult::Input(line)) = outcome {
            let (digest, mid) = choose|digest: Result<ShellResult, String>, mid: ShellView<T, I, P, H>|
                {
                    &&& #[trigger] Self::digests(pre, line@, mid, digest)
                    &&& post == (ShellView {
                        prompt: crate::shell::prompt_after(mid.prompt, digest),
                        ..mid
                    })
                    &&& Ok::<Turn, std::io::Error>(Turn::Finish) == Ok::<Turn, std::io::Error>(
                        crate::shell::turn_after(digest),
                    )
                };
            assert(digest == Ok::<ShellResult, String>(Ok(ShellAction::Exit)));
        }
    }
}

/// A command definition as the parser: a line that is rejected leaves the
/// shell as it was, whatever the handler is.
pub proof fn command_rejection_changes_nothing<T, I: InputReader, H: Handler<clap::ArgMatches, T>>(
    pre: ShellView<T, I, clap::Command, H>,
    line: Seq<char>,
    post: ShellView<T, I, clap::Command, H>,
    message: String,
)
    requires
        Shell::<clap::ArgMatches, T, I, clap::Command, H>::digests(pre, line, post, Err(message)),
    ensures
        post == pre,
{
}

/// A command definition as the parser: the same words get the same answer,
/// whatever the context is and however often it is asked.
pub proof fn command_answers_the_same<T>(
    command: clap::Command,
    words: Seq<Seq<char>>,
    first: Result<clap::ArgMatches, String>,
    second: Result<clap::ArgMatches, String>,
    before_first: T,
    after_first: T,
    before_second: T,
    after_second: T,
)
    requires
        InputParser::<clap::ArgMatches, T>::parses(
            &command,
            words,
            before_first,
            after_first,
            first,
        ),
        InputParser::<clap::ArgMatches, T>::parses(
            &command,
            words,
            before_second,
            after_second,
            second,
        ),
    ensures
        match first {
            Ok(found) => second == Ok::<clap::ArgMatches, String>(found),
            Err(message) => second matches Err(again) && again@ == message@,
        },
{
}

} // verus!
