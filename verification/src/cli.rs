//! The command line: what the arguments ask for and what a request prints.

use crate::config;
use crate::config::Config;
use crate::llm::{Msg, MsgView};
use crate::text;
use crate::text::{equals, is_blank};
use vstd::prelude::*;

verus! {

pub const USAGE: &'static str = "uso: better-answer [--improve <texto> | --config-path]";

pub const IMPROVE_USAGE: &'static str = "uso: better-answer --improve <texto>";

/// What the arguments ask for.
#[derive(Debug)]
pub enum Command {
    /// No argument: the application in the tray.
    Gui,
    /// Print where the configuration lies.
    ConfigPath,
    /// Improve a text and print the result.
    Improve(String),
    /// An argument that nobody knows.
    Unknown(String),
}

/// The model of a [`Command`].
pub enum CommandView {
    Gui,
    ConfigPath,
    Improve(Seq<char>),
    Unknown(Seq<char>),
}

impl View for Command {
    type V = CommandView;

    open spec fn view(&self) -> CommandView {
        match self {
            Command::Gui => CommandView::Gui,
            Command::ConfigPath => CommandView::ConfigPath,
            Command::Improve(s) => CommandView::Improve(s@),
            Command::Unknown(s) => CommandView::Unknown(s@),
        }
    }
}

/// What the arguments ask for: the first one decides, and the rest is the text to improve.
pub open spec fn command_of(args: Seq<Seq<char>>) -> CommandView {
    if args.len() == 0 {
        CommandView::Gui
    } else if args[0] == "--config-path"@ {
        CommandView::ConfigPath
    } else if args[0] == "--improve"@ {
        CommandView::Improve(text::joined(args.skip(1), " "@))
    } else {
        CommandView::Unknown(args[0])
    }
}

/// What the arguments ask for, without the name of the program.
pub fn command(args: &Vec<String>) -> (r: Command)
    ensures
        r@ == command_of(text::contents(args@)),
{
    if args.len() == 0 {
        return Command::Gui;
    }
    let ghost all = text::contents(args@);
    assert(all[0] == args@[0]@);
    if equals(args[0].as_str(), "--config-path") {
        Command::ConfigPath
    } else if equals(args[0].as_str(), "--improve") {
        let mut rest: Vec<String> = Vec::new();
        let mut i: usize = 1;
        while i < args.len()
            invariant
                1 <= i <= args@.len(),
                all == text::contents(args@),
                text::contents(rest@) == all.subrange(1, i as int),
            decreases args@.len() - i,
        {
            let ghost before = text::contents(rest@);
            rest.push(args[i].clone());
            assert(text::contents(rest@) =~= before.push(all[i as int]));
            i = i + 1;
            assert(text::contents(rest@) =~= all.subrange(1, i as int));
        }
        assert(text::contents(rest@) =~= all.skip(1));
        Command::Improve(text::join(&rest, " "))
    } else {
        Command::Unknown(args[0].clone())
    }
}

/// What is told of an argument that nobody knows, after [`USAGE`].
pub fn unknown_argument(other: &str) -> (r: String)
    ensures
        r@ == "argumento desconhecido: "@ + other@,
{
    let mut out = "argumento desconhecido: ".to_owned();
    out.append(other);
    out
}

/// Whether there is a text to improve; if not, [`IMPROVE_USAGE`] is told.
pub fn has_text(input: &str) -> (r: bool)
    ensures
        r == !text::blank(input@),
{
    !is_blank(input)
}

/// What a message of a request prints.
#[derive(Debug)]
pub enum Print {
    /// To the standard output.
    Answer(String),
    /// To the standard error, as a line.
    Failure(String),
}

/// The model of a [`Print`].
pub enum PrintView {
    Answer(Seq<char>),
    Failure(Seq<char>),
}

impl View for Print {
    type V = PrintView;

    open spec fn view(&self) -> PrintView {
        match self {
            Print::Answer(s) => PrintView::Answer(s@),
            Print::Failure(s) => PrintView::Failure(s@),
        }
    }
}

/// What a message of a request prints.
pub open spec fn printed(msg: MsgView) -> PrintView {
    match msg {
        MsgView::Delta(d) => PrintView::Answer(d),
        MsgView::Done => PrintView::Answer("\n"@),
        MsgView::Error(e) => PrintView::Failure("\nerro: "@ + e),
    }
}

/// What a message of a request prints.
pub fn print_of(msg: Msg) -> (r: Print)
    ensures
        r@ == printed(msg@),
{
    match msg {
        Msg::Delta(d) => Print::Answer(d),
        Msg::Done => Print::Answer("\n".to_owned()),
        Msg::Error(e) => {
            let mut out = "\nerro: ".to_owned();
            out.append(e.as_str());
            Print::Failure(out)
        },
    }
}

/// The configuration to start with: the default one, and what to tell, where none could be loaded.
pub fn startup(loaded: Result<Config, String>, model: &str) -> (r: (Config, Option<String>))
    ensures
        match loaded {
            Ok(cfg) => r.0 == cfg && r.1 is None,
            Err(e) => r.0@ == config::default_config(model@) && text::opt_string(r.1) == Some(
                "config: "@ + e@,
            ),
        },
{
    match loaded {
        Ok(cfg) => (cfg, None),
        Err(e) => {
            let mut out = "config: ".to_owned();
            out.append(e.as_str());
            (Config::default(model), Some(out))
        },
    }
}

/// Without arguments the application starts. The arguments behind `--improve` are one text, with a
/// space between them; those behind `--config-path` do not count; and an unknown first argument is
/// told, whatever follows.
pub proof fn first_argument_decides(
    rest: Seq<Seq<char>>,
    word: Seq<char>,
    words: Seq<Seq<char>>,
    other: Seq<char>,
)
    requires
        other != "--improve"@,
        other != "--config-path"@,
    ensures
        command_of(Seq::empty()) == CommandView::Gui,
        command_of(seq!["--config-path"@] + rest) == CommandView::ConfigPath,
        command_of(seq!["--improve"@]) == CommandView::Improve(Seq::empty()),
        command_of(seq!["--improve"@, word]) == CommandView::Improve(word),
        words.len() > 0 ==> command_of(seq!["--improve"@, word] + words) == CommandView::Improve(
            word + " "@ + text::joined(words, " "@),
        ),
        command_of(seq![other] + rest) == CommandView::Unknown(other),
{
    reveal_strlit("--improve");
    reveal_strlit("--config-path");
    assert("--improve"@[2] != "--config-path"@[2]);
    text::joining_keeps_the_order(word, words, " "@);
    assert(seq!["--improve"@].skip(1) =~= Seq::<Seq<char>>::empty());
    assert(seq!["--improve"@, word].skip(1) =~= seq![word]);
    assert((seq!["--improve"@, word] + words).skip(1) =~= seq![word] + words);
}

/// A request prints the answer as it comes in and then one line break; a failure goes to the error
/// output.
pub proof fn answer_is_printed_as_it_comes(piece: Seq<char>, e: Seq<char>)
    ensures
        printed(MsgView::Delta(piece)) == PrintView::Answer(piece),
        printed(MsgView::Done) == PrintView::Answer("\n"@),
        printed(MsgView::Error(e)) == PrintView::Failure("\nerro: "@ + e),
{
}

/// The models of commands and of what is printed hold all of them.
pub proof fn models_of_commands(s: String)
    ensures
        Command::Gui@ == CommandView::Gui,
        Command::ConfigPath@ == CommandView::ConfigPath,
        Command::Improve(s)@ == CommandView::Improve(s@),
        Command::Unknown(s)@ == CommandView::Unknown(s@),
        Print::Answer(s)@ == PrintView::Answer(s@),
        Print::Failure(s)@ == PrintView::Failure(s@),
{
}

} // verus!
