//! The loop: read a line, parse it, handle it, act on the directive.

use crate::input_parser::{tokenize, InputParser};
use crate::input_reader::{InputReader, InputResult};
use vstd::prelude::*;

verus! {

/// What a handler tells the loop to do next.
#[derive(Debug)]
pub enum ShellAction {
    /// Go on with the next line.
    Continue,
    /// Go on with the next line, under a new prompt.
    UpdatePrompt(String),
    /// Leave the loop.
    Exit,
}

/// What a handler returns: a directive, or the message of its failure.
pub type ShellResult = Result<ShellAction, String>;

/// How one turn of the loop ended.
#[derive(Debug)]
pub enum Turn {
    /// The loop goes on and has nothing to say.
    Proceed,
    /// The loop goes on after showing this message to the user.
    Report(String),
    /// The loop is over.
    Finish,
}

/// The state of the loop between two turns.
#[derive(Clone, Copy, Debug, PartialEq, Eq, Structural)]
pub enum LoopState {
    Running,
    Terminated,
}

/// The action that belongs to typed arguments.
pub trait Handler<A, T> {
    /// Whether the handler may be called.  A handler that says nothing
    /// else may always be called.
    open spec fn wf(&self) -> bool {
        true
    }

    /// Whether handling `args` with the context `before` may leave the
    /// context as `after` and deliver `handled`.
    /// A handler that says nothing else may do anything.
    open spec fn handles(&self, args: A, before: T, after: T, handled: ShellResult) -> bool {
        true
    }

    /// Acts on `args` and says how the loop goes on.
    fn handle(&self, args: A, context: &mut T) -> (handled: ShellResult)
        requires
            self.wf(),
        ensures
            self.handles(args, *old(context), *final(context), handled),
    ;
}

/// Any function from arguments and context to a handler's result is a
/// handler.
impl<A, T, F> Handler<A, T> for F where F: Fn(A, &mut T) -> ShellResult {
    /// The function accepts every argument and context.
    open spec fn wf(&self) -> bool {
        forall|args: A, context: &mut T| call_requires(*self, (args, context))
    }

    /// The function may give this result when it is handed these arguments
    /// and the context `before`.
    open spec fn handles(&self, args: A, before: T, after: T, handled: ShellResult) -> bool {
        exists|handed: &mut T|
            *handed == before && #[trigger] call_ensures(*self, (args, handed), handled)
    }

    /// Calls the function on the arguments and the context.  The context
    /// is handed over as it is and comes back as the function leaves it,
    /// and the result is the function's.
    fn handle(&self, args: A, context: &mut T) -> (handled: ShellResult)
        ensures
            exists|handed: &mut T|
                {
                    &&& *handed == *old(context)
                    &&& *final(handed) == *final(context)
                    &&& #[trigger] call_ensures(*self, (args, handed), handled)
                },
    {
        self(args, context)
    }
}

/// A function that accepts every argument and context may be called as a
/// handler.
pub proof fn function_handler_wf<A, T, F>(f: F) where F: Fn(A, &mut T) -> ShellResult
    requires
        forall|args: A, context: &mut T| call_requires(f, (args, context)),
    ensures
        Handler::<A, T>::wf(&f),
{
}

/// The prompt after a line whose treatment ended in `digest`: the new one
/// where a handler asked for it, else the old one.
pub open spec fn prompt_after(prompt: Seq<char>, digest: Result<ShellResult, String>) -> Seq<char> {
    match digest {
        Ok(Ok(ShellAction::UpdatePrompt(new_prompt))) => new_prompt@,
        _ => prompt,
    }
}

/// How the turn ends for a line whose treatment ended in `digest`: both
/// kinds of error are reported, `Exit` ends the loop, and nothing else is
/// said.
pub open spec fn turn_after(digest: Result<ShellResult, String>) -> Turn {
    match digest {
        Err(message) => Turn::Report(message),
        Ok(Err(message)) => Turn::Report(message),
        Ok(Ok(ShellAction::Exit)) => Turn::Finish,
        Ok(Ok(_)) => Turn::Proceed,
    }
}

/// The messages that a turn adds to what the user is shown.
pub open spec fn said_in(turn: Turn) -> Seq<Seq<char>> {
    match turn {
        Turn::Report(message) => seq![message@],
        _ => Seq::empty(),
    }
}

/// A shell, as the contracts see it.
pub struct ShellView<T, I, P, H> {
    pub prompt: Seq<char>,
    pub context: T,
    pub reader: I,
    pub parser: P,
    pub handler: H,
}

/// One turn on the path of a run: how it ended, and the shell it left.
pub struct Hop<T, I, P, H> {
    pub turn: Turn,
    pub after: ShellView<T, I, P, H>,
}

/// The messages that the turns of a path show the user, in their order.
pub open spec fn said_along<T, I, P, H>(path: Seq<Hop<T, I, P, H>>) -> Seq<Seq<char>>
    decreases path.len(),
{
    if path.len() == 0 {
        Seq::empty()
    } else {
        said_along(path.drop_last()) + said_in(path.last().turn)
    }
}

/// The loop driver.  It owns the prompt, the context and one reader, one
/// parser and one handler, which agree on the types of the arguments and of
/// the context.
pub struct Shell<A, T, I: InputReader, P: InputParser<A, T>, H: Handler<A, T>> {
    prompt: String,
    context: T,
    input_reader: I,
    input_parser: P,
    handler: H,
    args_marker: std::marker::PhantomData<A>,
}

impl<A, T, I: InputReader, P: InputParser<A, T>, H: Handler<A, T>> View for Shell<A, T, I, P, H> {
    type V = ShellView<T, I, P, H>;

    closed spec fn view(&self) -> ShellView<T, I, P, H> {
        ShellView {
            prompt: self.prompt@,
            context: self.context,
            reader: self.input_reader,
            parser: self.input_parser,
            handler: self.handler,
        }
    }
}

impl<A, T, I: InputReader, P: InputParser<A, T>, H: Handler<A, T>> Shell<A, T, I, P, H> {
    /// Whether the three collaborators may be called.
    pub open spec fn wf(&self) -> bool {
        &&& self@.reader.wf()
        &&& self@.parser.wf()
        &&& self@.handler.wf()
    }

    /// A shell that starts with the given context and with the text of
    /// `prompt` as its prompt.
    pub fn new<D: std::fmt::Display + ?Sized>(
        prompt: &D,
        context: T,
        input_reader: I,
        input_parser: P,
        handler: H,
    ) -> (shell: Self)
        ensures
            exists|text: String| #[trigger]
                vstd::string::to_string_from_display_ensures::<D>(prompt, text) && shell@.prompt
                    == text@,
            shell@.context == context,
            shell@.reader == input_reader,
            shell@.parser == input_parser,
            shell@.handler == handler,
    {
        Self {
            prompt: prompt.to_string(),
            context,
            input_reader,
            input_parser,
            handler,
            args_marker: std::marker::PhantomData,
        }
    }

    /// The prompt that the next read will show.
    pub fn prompt(&self) -> (prompt: &str)
        ensures
            prompt@ == self@.prompt,
    {
        self.prompt.as_str()
    }

    /// The context as the last turn left it.
    pub fn context(&self) -> (context: &T)
        ensures
            *context == self@.context,
    {
        &self.context
    }

    /// What the loop makes of a parser's answer: an error ends the
    /// treatment of the line with the context as the parser left it;
    /// arguments go to the handler, whose result is the outcome.
    pub open spec fn hands_on(
        handler: H,
        parsed: Result<A, String>,
        mid: T,
        after: T,
        digest: Result<ShellResult, String>,
    ) -> bool {
        match parsed {
            Err(message) => digest == Err::<ShellResult, String>(message) && after == mid,
            Ok(args) => digest matches Ok(handled) && handler.handles(args, mid, after, handled),
        }
    }

    /// Whether the treatment of one line may lead from `pre` to `post` and
    /// end in `digest`.  A line that cannot be split into words is refused
    /// before anyone sees the context; the words of any other line go to
    /// the parser and, if it accepts them, on to the handler.  Nothing but
    /// the context changes.
    pub open spec fn digests(
        pre: ShellView<T, I, P, H>,
        line: Seq<char>,
        post: ShellView<T, I, P, H>,
        digest: Result<ShellResult, String>,
    ) -> bool {
        &&& post == (ShellView { context: post.context, ..pre })
        &&& match crate::input_parser::shlex_split(line) {
            None => {
                &&& digest matches Err(message)
                &&& message@ == crate::input_parser::invalid_quoting()
                &&& post.context == pre.context
            },
            Some(words) => exists|parsed: Result<A, String>, mid: T|
                {
                    &&& #[trigger] pre.parser.parses(words, pre.context, mid, parsed)
                    &&& Self::hands_on(pre.handler, parsed, mid, post.context, digest)
                },
        }
    }

    /// Whether a turn that has read `outcome` may lead from `pre` to `post`
    /// and end in `result`.  A failed read is handed on as it is; the end of
    /// input ends the loop; an interruption changes nothing; a line is
    /// treated, and the turn ends on what became of it.
    pub open spec fn reacts(
        pre: ShellView<T, I, P, H>,
        outcome: Result<InputResult, std::io::Error>,
        post: ShellView<T, I, P, H>,
        result: Result<Turn, std::io::Error>,
    ) -> bool {
        match outcome {
            Err(error) => result == Err::<Turn, std::io::Error>(error) && post == pre,
            Ok(InputResult::Eof) => result == Ok::<Turn, std::io::Error>(Turn::Finish) && post
                == pre,
            Ok(InputResult::Interrupted) => result == Ok::<Turn, std::io::Error>(Turn::Proceed)
                && post == pre,
            Ok(InputResult::Input(line)) => exists|
                digest: Result<ShellResult, String>,
                mid: ShellView<T, I, P, H>,
            |
                {
                    &&& #[trigger] Self::digests(pre, line@, mid, digest)
                    &&& post == (ShellView { prompt: prompt_after(mid.prompt, digest), ..mid })
                    &&& result == Ok::<Turn, std::io::Error>(turn_after(digest))
                },
        }
    }

    /// Whether one turn may lead from `pre` to `post` and end in `result`:
    /// the reader is asked once, with the prompt of `pre`, and the turn
    /// reacts to what it delivers.
    pub open spec fn steps(
        pre: ShellView<T, I, P, H>,
        post: ShellView<T, I, P, H>,
        result: Result<Turn, std::io::Error>,
    ) -> bool {
        exists|outcome: Result<InputResult, std::io::Error>, reader: I|
            {
                &&& #[trigger] pre.reader.reads(pre.prompt, &reader, outcome)
                &&& Self::reacts(ShellView { reader, ..pre }, outcome, post, result)
            }
    }

    /// The shell before the turn `at` of a run that starts from `pre` and
    /// goes along `path`.
    pub open spec fn before_turn(
        pre: ShellView<T, I, P, H>,
        path: Seq<Hop<T, I, P, H>>,
        at: int,
    ) -> ShellView<T, I, P, H> {
        if at == 0 {
            pre
        } else {
            path[at - 1].after
        }
    }

    /// Whether the loop may go from `pre` along `path`: every turn of the
    /// path is one turn of the loop from the shell that the turn before it
    /// left, and none of them ends the loop.
    pub open spec fn follows(pre: ShellView<T, I, P, H>, path: Seq<Hop<T, I, P, H>>) -> bool {
        forall|at: int|
            0 <= at < path.len() ==> {
                &&& Self::steps(
                    Self::before_turn(pre, path, at),
                    (#[trigger] path[at]).after,
                    Ok(path[at].turn),
                )
                &&& path[at].turn !is Finish
            }
    }

    /// Whether a run of at most `limit` turns may lead from `pre` to `post`,
    /// end in `end` and show the user the messages `said`.  The run goes
    /// along some path of turns that do not end the loop.  It is still
    /// `Running` only when the path has all `limit` turns; it is
    /// `Terminated` by one more turn, which finishes; and it fails with the
    /// error of one more turn, whose read fails.
    pub open spec fn runs(
        pre: ShellView<T, I, P, H>,
        limit: nat,
        post: ShellView<T, I, P, H>,
        end: Result<LoopState, std::io::Error>,
        said: Seq<Seq<char>>,
    ) -> bool {
        exists|path: Seq<Hop<T, I, P, H>>|
            {
                &&& #[trigger] Self::follows(pre, path)
                &&& said == said_along(path)
                &&& Self::ends(Self::before_turn(pre, path, path.len() as int), path.len(), limit, post, end)
            }
    }

    /// How a run ends that has taken `taken` turns and stands at `last`.
    pub open spec fn ends(
        last: ShellView<T, I, P, H>,
        taken: nat,
        limit: nat,
        post: ShellView<T, I, P, H>,
        end: Result<LoopState, std::io::Error>,
    ) -> bool {
        match end {
            Ok(LoopState::Running) => taken == limit && post == last,
            Ok(LoopState::Terminated) => taken < limit && Self::steps(last, post, Ok(Turn::Finish)),
            Err(error) => taken < limit && Self::steps(last, post, Err(error)),
        }
    }

    /// Treats one line: splits it into words, has them parsed, and hands
    /// the arguments to the handler.  The outer error is that of the
    /// splitting or of the parser, the inner one that of the handler.
    pub fn handle_input(&mut self, input: &str) -> (digest: Result<ShellResult, String>)
        requires
            old(self).wf(),
        ensures
            final(self).wf(),
            Self::digests(old(self)@, input@, final(self)@, digest),
    {
        let raw_args = match tokenize(input) {
            Ok(words) => words,
            Err(message) => {
                return Err(message);
            },
        };
        // The arguments are parsed before the handler is called, so that a
        // line that does not parse never reaches it.
        let ghost words = raw_args.deep_view();
        let parsed = self.input_parser.parse(raw_args, &mut self.context);
        let ghost mid = self.context;
        proof {
            assert(crate::input_parser::shlex_split(input@) == Some(words));
            assert(old(self)@.parser.parses(words, old(self)@.context, mid, parsed));
        }
        match parsed {
            Err(message) => {
                assert(Self::hands_on(old(self)@.handler, parsed, mid, mid, Err(message)));
                Err(message)
            },
            Ok(args) => {
                let handled = self.handler.handle(args, &mut self.context);
                assert(Self::hands_on(old(self)@.handler, parsed, mid, self@.context, Ok(handled)));
                Ok(handled)
            },
        }
    }

    /// Ends a turn on what became of its line: takes over a new prompt,
    /// and says whether the loop goes on and what the user is to be told.
    pub fn conclude(&mut self, digest: Result<ShellResult, String>) -> (turn: Turn)
        ensures
            final(self)@ == (ShellView {
                prompt: prompt_after(old(self)@.prompt, digest),
                ..old(self)@
            }),
            turn == turn_after(digest),
    {
        match digest {
            Err(message) => Turn::Report(message),
            Ok(Err(message)) => Turn::Report(message),
            Ok(Ok(ShellAction::Continue)) => Turn::Proceed,
            Ok(Ok(ShellAction::UpdatePrompt(new_prompt))) => {
                self.prompt = new_prompt;
                Turn::Proceed
            },
            Ok(Ok(ShellAction::Exit)) => Turn::Finish,
        }
    }

    /// Finishes a turn whose read delivered `outcome`.
    pub fn react(&mut self, outcome: Result<InputResult, std::io::Error>) -> (result: Result<
        Turn,
        std::io::Error,
    >)
        requires
            old(self).wf(),
        ensures
            final(self).wf(),
            Self::reacts(old(self)@, outcome, final(self)@, result),
    {
        match outcome {
            Err(error) => Err(error),
            Ok(InputResult::Eof) => Ok(Turn::Finish),
            Ok(InputResult::Interrupted) => Ok(Turn::Proceed),
            Ok(InputResult::Input(line)) => {
                let digest = self.handle_input(line.as_str());
                let ghost mid = self@;
                assert(Self::digests(old(self)@, line@, mid, digest));
                let turn = self.conclude(digest);
                Ok(turn)
            },
        }
    }

    /// Takes one turn: reads a line under the current prompt and reacts to
    /// what was read.
    pub fn step(&mut self) -> (result: Result<Turn, std::io::Error>)
        requires
            old(self).wf(),
        ensures
            final(self).wf(),
            Self::steps(old(self)@, final(self)@, result),
    {
        let outcome = self.input_reader.read(self.prompt.as_str());
        assert(old(self)@.reader.reads(old(self)@.prompt, &self@.reader, outcome));
        self.react(outcome)
    }

    /// Runs the loop for at most `limit` turns.  Each message for the user
    /// is appended to `log`, in the order of the turns.  The run ends when a
    /// handler asks for it or when the input is exhausted, fails when a read
    /// fails, and is otherwise still running after the last turn.
    pub fn run(&mut self, limit: usize, log: &mut Vec<String>) -> (end: Result<
        LoopState,
        std::io::Error,
    >)
        requires
            old(self).wf(),
        ensures
            final(self).wf(),
            old(log).deep_view().is_prefix_of(final(log).deep_view()),
            Self::runs(
                old(self)@,
                limit as nat,
                final(self)@,
                end,
                final(log).deep_view().skip(old(log)@.len() as int),
            ),
    {
        let mut taken: usize = 0;
        let ghost mut path: Seq<Hop<T, I, P, H>> = Seq::empty();
        while taken < limit
            invariant
                taken <= limit,
                taken == path.len(),
                self.wf(),
                Self::follows(old(self)@, path),
                self@ == Self::before_turn(old(self)@, path, path.len() as int),
                log.deep_view() =~= old(log).deep_view() + said_along(path),
            decreases limit - taken,
        {
            let ghost said = said_along(path);
            let ghost shown = log.deep_view();
            assert(shown.skip(old(log)@.len() as int) =~= said);
            match self.step() {
                Err(error) => {
                    return Err(error);
                },
                Ok(Turn::Finish) => {
                    return Ok(LoopState::Terminated);
                },
                Ok(Turn::Proceed) => {
                    proof {
                        let hop = Hop { turn: Turn::Proceed, after: self@ };
                        assert(path.push(hop).drop_last() =~= path);
                        assert(said + said_in(Turn::Proceed) =~= said);
                        path = path.push(hop);
                    }
                },
                Ok(Turn::Report(message)) => {
                    proof {
                        let hop = Hop { turn: Turn::Report(message), after: self@ };
                        assert(path.push(hop).drop_last() =~= path);
                        path = path.push(hop);
                    }
                    log.push(message);
                    assert(log.deep_view() =~= shown.push(message@));
                },
            }
            taken = taken + 1;
        }
        assert(log.deep_view().skip(old(log)@.len() as int) =~= said_along(path));
        Ok(LoopState::Running)
    }
}

} // verus!
