//! From the words of a line to typed arguments.

use vstd::prelude::*;

verus! {

/// A parser of argument lists.
pub trait InputParser<A, T> {
    /// Whether the parser may be asked to parse.  A parser that says
    /// nothing else may always be asked.
    open spec fn wf(&self) -> bool {
        true
    }

    /// Whether parsing `args` with the context `before` may leave the
    /// context as `after` and deliver `parsed`.
    /// A parser that says nothing else may do anything.
    open spec fn parses(
        &self,
        args: Seq<Seq<char>>,
        before: T,
        after: T,
        parsed: Result<A, String>,
    ) -> bool {
        true
    }

    /// Parses the words of one line into arguments, or says why it cannot.
    fn parse(&self, args: Vec<String>, context: &mut T) -> (parsed: Result<A, String>)
        requires
            self.wf(),
        ensures
            self.parses(args.deep_view(), *old(context), *final(context), parsed),
    ;
}

/// Any function from words and context to arguments, or to an error that
/// can be displayed, is a parser.
impl<A, T, F, E> InputParser<A, T> for F where
    F: Fn(Vec<String>, &mut T) -> Result<A, E>,
    E: std::fmt::Display,
 {
    /// The function accepts every argument list and context.
    open spec fn wf(&self) -> bool {
        forall|args: Vec<String>, context: &mut T| call_requires(*self, (args, context))
    }

    /// The function may give an answer when it is handed these words and
    /// the context `before`; its arguments are handed on as they are, and
    /// its error as the text that displays it.
    open spec fn parses(
        &self,
        args: Seq<Seq<char>>,
        before: T,
        after: T,
        parsed: Result<A, String>,
    ) -> bool {
        exists|words: Vec<String>, handed: &mut T, answer: Result<A, E>|
            {
                &&& words.deep_view() == args
                &&& *handed == before
                &&& #[trigger] call_ensures(*self, (words, handed), answer)
                &&& match answer {
                    Ok(value) => parsed == Ok::<A, String>(value),
                    Err(error) => parsed matches Err(message)
                        && vstd::string::to_string_from_display_ensures::<E>(&error, message),
                }
            }
    }

    /// Calls the function on the words and the context.  The context is
    /// handed over as it is and comes back as the function leaves it; the
    /// function's arguments are handed on as they are, and its error is
    /// handed on as the text that displays it.
    fn parse(&self, args: Vec<String>, context: &mut T) -> (parsed: Result<A, String>)
        ensures
            exists|handed: &mut T, answer: Result<A, E>|
                {
                    &&& *handed == *old(context)
                    &&& *final(handed) == *final(context)
                    &&& #[trigger] call_ensures(*self, (args, handed), answer)
                    &&& match answer {
                        Ok(value) => parsed == Ok::<A, String>(value),
                        Err(error) => parsed matches Err(message)
                            && vstd::string::to_string_from_display_ensures::<E>(&error, message),
                    }
                },
    {
        match self(args, context) {
            Ok(parsed) => Ok(parsed),
            Err(e) => Err(e.to_string()),
        }
    }
}

/// A function that accepts every argument list and context may be asked
/// to parse.
pub proof fn function_parser_wf<A, T, F, E>(f: F) where
    F: Fn(Vec<String>, &mut T) -> Result<A, E>,
    E: std::fmt::Display,

    requires
        forall|args: Vec<String>, context: &mut T| call_requires(f, (args, context)),
    ensures
        InputParser::<A, T>::wf(&f),
{
}

/// What `shlex::split` makes of a line: its words, or nothing where the
/// line ends inside a quotation or right after a backslash.
pub uninterp spec fn shlex_split(line: Seq<char>) -> Option<Seq<Seq<char>>>;

/// Calls `shlex::split`, which splits a line into words as a POSIX shell
/// does and returns nothing for a line that it cannot split.  The result
/// depends on the line alone.
#[verifier::external_body]
fn split_line(line: &str) -> (split: Option<Vec<String>>)
    ensures
        match split {
            Some(words) => shlex_split(line@) == Some(words.deep_view()),
            None => shlex_split(line@) is None,
        },
{
    shlex::split(line)
}

/// The message for a line that cannot be split into words.
pub open spec fn invalid_quoting() -> Seq<char> {
    "Invalid quoting"@
}

/// What the loop makes of a split line: the words, or the complaint that
/// the quoting is invalid.
pub fn words_or_complaint(split: Option<Vec<String>>) -> (words: Result<Vec<String>, String>)
    ensures
        match split {
            Some(list) => words == Ok::<Vec<String>, String>(list),
            None => words matches Err(message) && message@ == invalid_quoting(),
        },
{
    match split {
        Some(list) => Ok(list),
        None => Err("Invalid quoting".to_owned()),
    }
}

/// Splits a line into words as a shell does, minding quotes.
pub fn tokenize(line: &str) -> (words: Result<Vec<String>, String>)
    ensures
        match shlex_split(line@) {
            Some(list) => words matches Ok(found) && found.deep_view() == list,
            None => words matches Err(message) && message@ == invalid_quoting(),
        },
{
    words_or_complaint(split_line(line))
}

/// clap's definition of a command and its arguments.  Nothing is known of
/// what it holds.
#[verifier::external_type_specification]
#[verifier::external_body]
pub struct ExCommand(clap::Command);

/// What clap has matched of an argument list.  Nothing is known of what it
/// holds.
#[verifier::external_type_specification]
#[verifier::external_body]
pub struct ExArgMatches(clap::ArgMatches);

/// Whether clap can match argument lists against this definition: the
/// assertions that clap makes on a definition before it first parses with
/// it hold, nothing that the definition carries panics, and the value
/// parsers that it carries answer by their input alone.  A definition that
/// contradicts itself (two arguments of one name, an argument on a
/// multicall command) is not sound: clap panics on it where it is built
/// with debug assertions.
pub uninterp spec fn sound_definition(command: clap::Command) -> bool;

/// What `clap::Command::is_multicall_set` answers: whether the command
/// takes the first word of an argument list for the name of one of its
/// subcommands, and not for its own name.
pub uninterp spec fn multicall_set(command: clap::Command) -> bool;

/// What `clap::Command::try_get_matches_from_mut` answers when a copy of a
/// sound definition is given the words as the whole argument list: what it
/// has matched, or the text that displays its error.
pub uninterp spec fn clap_answer(command: clap::Command, args: Seq<Seq<char>>) -> Result<
    clap::ArgMatches,
    Seq<char>,
>;

/// Calls `clap::Command::default` and `clap::Command::multicall`: a command
/// without a name, arguments or subcommands, on which `multicall` is set.
/// Such a definition is sound: clap's assertions speak of arguments, groups,
/// subcommands, version and help settings, of which it has none, and of
/// `multicall` together with `no_binary_name`, which is not set; and it
/// carries no value parser.
#[verifier::external_body]
fn empty_multicall_command() -> (root: clap::Command)
    ensures
        sound_definition(root),
        multicall_set(root),
{
    clap::Command::default().multicall(true)
}

/// The root of a grammar of subcommands: a command of its own without
/// arguments, under which the subcommands are gathered, and which takes the
/// first word of a line for the name of one of them.
pub fn multicall_root() -> (root: clap::Command)
    ensures
        sound_definition(root),
        multicall_set(root),
{
    empty_multicall_command()
}

/// Calls `clap::Command::try_get_matches_from_mut` on a copy of `command`,
/// with `args` as the whole argument list, and renders the error, if there
/// is one, as clap displays it.  With a sound definition the answer depends
/// on the definition and the words alone: clap reads nothing else, and the
/// text of its error comes without styling.  On a definition that is not
/// sound clap may panic, so the call is for sound ones only.
#[verifier::external_body]
fn command_matches(command: &clap::Command, args: Vec<String>) -> (matched: Result<
    clap::ArgMatches,
    String,
>)
    requires
        sound_definition(*command),
    ensures
        match matched {
            Ok(found) => clap_answer(*command, args.deep_view()) == Ok::<
                clap::ArgMatches,
                Seq<char>,
            >(found),
            Err(message) => clap_answer(*command, args.deep_view()) == Err::<
                clap::ArgMatches,
                Seq<char>,
            >(message@),
        },
{
    match command.clone().try_get_matches_from_mut(args) {
        Ok(matches) => Ok(matches),
        Err(e) => Err(e.to_string()),
    }
}

/// A command definition parses the words against its grammar.  The context
/// plays no part.
impl<T> InputParser<clap::ArgMatches, T> for clap::Command {
    /// Only a sound definition may be asked to parse.
    open spec fn wf(&self) -> bool {
        sound_definition(*self)
    }

    /// The context is left as it was, and the answer is clap's answer for
    /// this definition and these words.
    open spec fn parses(
        &self,
        args: Seq<Seq<char>>,
        before: T,
        after: T,
        parsed: Result<clap::ArgMatches, String>,
    ) -> bool {
        &&& after == before
        &&& match parsed {
            Ok(found) => clap_answer(*self, args) == Ok::<clap::ArgMatches, Seq<char>>(found),
            Err(message) => clap_answer(*self, args) == Err::<clap::ArgMatches, Seq<char>>(
                message@,
            ),
        }
    }

    fn parse(&self, args: Vec<String>, context: &mut T) -> (parsed: Result<clap::ArgMatches, String>) {
        command_matches(self, args)
    }
}

} // verus!
