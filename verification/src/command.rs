//! Commands as values: what to run, and what came back from running it.
//! Running them is the caller's part.

use vstd::prelude::*;
use vstd::string::*;
use vstd::utf8::*;

verus! {

/// The text of each string of `strings`, in order.
pub open spec fn texts(strings: Seq<String>) -> Seq<Seq<char>> {
    strings.map_values(|s: String| s@)
}

/// A program and the arguments to start it with.
#[derive(Clone, Debug, PartialEq, Eq)]
pub struct CommandLine {
    /// Path or name of the executable.
    pub program: String,
    /// Its arguments, in order.
    pub args: Vec<String>,
}

/// A [`CommandLine`] as plain text.
pub ghost struct CommandLineView {
    /// Path or name of the executable.
    pub program: Seq<char>,
    /// Its arguments, in order.
    pub args: Seq<Seq<char>>,
}

impl View for CommandLine {
    type V = CommandLineView;

    open spec fn view(&self) -> CommandLineView {
        CommandLineView { program: self.program@, args: texts(self.args@) }
    }
}

/// What a command left behind after it ran to its end.
#[derive(Clone, Debug, PartialEq, Eq)]
pub struct CommandOutput {
    /// Whether the exit status reported success.
    pub exit_success: bool,
    /// The bytes written to standard output.
    pub stdout: Vec<u8>,
    /// The bytes written to standard error.
    pub stderr: Vec<u8>,
}

/// A [`CommandOutput`] as plain values.
pub ghost struct CommandOutputView {
    /// Whether the exit status reported success.
    pub exit_success: bool,
    /// The bytes written to standard output.
    pub stdout: Seq<u8>,
    /// The bytes written to standard error.
    pub stderr: Seq<u8>,
}

impl View for CommandOutput {
    type V = CommandOutputView;

    open spec fn view(&self) -> CommandOutputView {
        CommandOutputView {
            exit_success: self.exit_success,
            stdout: self.stdout@,
            stderr: self.stderr@,
        }
    }
}

/// How an attempt to run a command ended.
#[derive(Clone, Debug, PartialEq, Eq)]
pub enum CommandOutcome {
    /// The executable could not be started at all.
    NotLaunched {
        /// What the system said about it.
        detail: String,
    },
    /// The command ran to its end.
    Completed(CommandOutput),
}

/// A [`CommandOutcome`] as plain values.
pub ghost enum CommandOutcomeView {
    /// The executable could not be started at all.
    NotLaunched {
        /// What the system said about it.
        detail: Seq<char>,
    },
    /// The command ran to its end.
    Completed(CommandOutputView),
}

impl View for CommandOutcome {
    type V = CommandOutcomeView;

    open spec fn view(&self) -> CommandOutcomeView {
        match self {
            CommandOutcome::NotLaunched { detail } => CommandOutcomeView::NotLaunched {
                detail: detail@,
            },
            CommandOutcome::Completed(output) => CommandOutcomeView::Completed(output@),
        }
    }
}

/// Appends a copy of `text` to `args`.
pub(crate) fn push_text(args: &mut Vec<String>, text: &str)
    ensures
        texts(final(args)@) == texts(old(args)@).push(text@),
{
    let owned = String::from_str(text);
    args.push(owned);
    assert(texts(args@) =~= texts(old(args)@).push(text@));
}

/// `String::from_utf8`: the bytes are turned into a string when they are
/// well-formed UTF-8, and only then; the string holds the characters that the
/// bytes encode.
#[verifier::external_body]
pub(crate) fn text_of(bytes: Vec<u8>) -> (text: Option<String>)
    ensures
        text is Some <==> valid_utf8(bytes@),
        text matches Some(s) ==> s@ == decode_utf8(bytes@),
{
    String::from_utf8(bytes).ok()
}

} // verus!
