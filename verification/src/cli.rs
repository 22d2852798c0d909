//! What the command line of the program asks for.
//!
//! `svm [--help|-h] [--version|-v] [--debug|-d] <rom_file.bin>`
//!
//! Reading the arguments from the environment, printing and leaving the
//! process are the program's business. Which of these to do is decided here.

use vstd::prelude::*;
use vstd::string::{StrSliceExecFns, StringExecFns};
use crate::machine::VMOptions;

verus! {

/// The decision on a command line.
#[derive(Debug)]
pub enum Command {
    /// There is no argument at all.
    NoArguments,
    /// The usage text is asked for.
    Usage,
    /// The version is asked for.
    Version,
    /// An argument looks like an option but is none.
    UnexpectedOption(String),
    /// After the file name come more arguments: these.
    UnexpectedArguments(Vec<String>),
    /// There are options only.
    MissingFileName,
    /// The file name does not end in `.bin`.
    BadExtension(String),
    /// Run the machine on the named image.
    Run(VMOptions),
}

/// A decision on a command line, with texts as sequences of characters.
pub enum Request {
    NoArguments,
    Usage,
    Version,
    UnexpectedOption(Seq<char>),
    UnexpectedArguments(Seq<Seq<char>>),
    MissingFileName,
    BadExtension(Seq<char>),
    Run { rom_binary: Seq<char>, debug: bool },
}

/// The texts of a list of strings.
pub open spec fn texts(arguments: Seq<String>) -> Seq<Seq<char>> {
    Seq::new(arguments.len(), |i: int| arguments[i]@)
}

impl View for Command {
    type V = Request;

    open spec fn view(&self) -> Request {
        match self {
            Command::NoArguments => Request::NoArguments,
            Command::Usage => Request::Usage,
            Command::Version => Request::Version,
            Command::UnexpectedOption(option) => Request::UnexpectedOption(option@),
            Command::UnexpectedArguments(rest) => Request::UnexpectedArguments(texts(rest@)),
            Command::MissingFileName => Request::MissingFileName,
            Command::BadExtension(name) => Request::BadExtension(name@),
            Command::Run(options) => Request::Run {
                rom_binary: options.rom_binary@,
                debug: options.debug,
            },
        }
    }
}

/// Whether the argument is written as an option: it begins with a dash.
pub open spec fn is_option(argument: Seq<char>) -> bool {
    argument.len() > 0 && argument[0] == '-'
}

/// Whether the name ends in `.bin`.
pub open spec fn has_rom_extension(name: Seq<char>) -> bool {
    name.len() >= 4 && name.subrange(name.len() - 4, name.len() as int) == seq!['.', 'b', 'i', 'n']
}

/// The decision on the arguments from position `from` on, when the ones
/// before were options and `debug` tells whether the debug option was among
/// them.
///
/// The arguments are read from left to right. A request for help or for the
/// version wins at once. The first argument that is no option is the file
/// name, and it has to be the last argument.
pub open spec fn scan(arguments: Seq<Seq<char>>, from: int, debug: bool) -> Request
    decreases arguments.len() - from,
{
    if from < 0 || from >= arguments.len() {
        Request::MissingFileName
    } else {
        let argument = arguments[from];
        if argument == "-h"@ || argument == "--help"@ {
            Request::Usage
        } else if argument == "-v"@ || argument == "--version"@ {
            Request::Version
        } else if argument == "-d"@ || argument == "--debug"@ {
            scan(arguments, from + 1, true)
        } else if is_option(argument) {
            Request::UnexpectedOption(argument)
        } else if from + 1 < arguments.len() {
            Request::UnexpectedArguments(arguments.subrange(from + 1, arguments.len() as int))
        } else if !has_rom_extension(argument) {
            Request::BadExtension(argument)
        } else {
            Request::Run { rom_binary: argument, debug }
        }
    }
}

/// The decision on a whole command line, without the name of the program.
pub open spec fn parse(arguments: Seq<Seq<char>>) -> Request {
    if arguments.len() == 0 {
        Request::NoArguments
    } else {
        scan(arguments, 0, false)
    }
}

impl Request {
    /// The exit code that the decision asks for, if it ends the process: 0
    /// after help or version, 1 after a mistake on the command line.
    pub open spec fn exit_code(self) -> Option<i32> {
        match self {
            Request::Usage | Request::Version => Some(0i32),
            Request::Run { .. } => None,
            _ => Some(1i32),
        }
    }
}

impl Command {
    /// The exit code that the decision asks for, if it ends the process.
    pub fn exit_code(&self) -> (code: Option<i32>)
        ensures
            code == self@.exit_code(),
    {
        match self {
            Command::Usage => Some(0),
            Command::Version => Some(0),
            Command::Run(_) => None,
            _ => Some(1),
        }
    }
}

fn is_word(text: &String, word: &str) -> (same: bool)
    ensures
        same == (text@ == word@),
{
    let other: String = String::from_str(word);
    *text == other
}

fn starts_with_dash(text: &String) -> (dashed: bool)
    ensures
        dashed == is_option(text@),
{
    let slice: &str = text.as_str();
    slice.unicode_len() > 0 && slice.get_char(0) == '-'
}

fn ends_with_bin(text: &String) -> (fits: bool)
    ensures
        fits == has_rom_extension(text@),
{
    let slice: &str = text.as_str();
    let length: usize = slice.unicode_len();
    if length < 4 {
        return false;
    }
    let fits: bool = slice.get_char(length - 4) == '.' && slice.get_char(length - 3) == 'b'
        && slice.get_char(length - 2) == 'i' && slice.get_char(length - 1) == 'n';
    proof {
        let tail = text@.subrange(length - 4, length as int);
        let wanted = seq!['.', 'b', 'i', 'n'];
        if fits {
            assert(tail =~= wanted);
        } else {
            assert(tail[0] == text@[length - 4] && tail[1] == text@[length - 3]);
            assert(tail[2] == text@[length - 2] && tail[3] == text@[length - 1]);
            assert(wanted[0] == '.' && wanted[1] == 'b' && wanted[2] == 'i' && wanted[3] == 'n');
        }
    }
    fits
}

/// Copies the arguments from position `from` on.
fn arguments_after(arguments: &Vec<String>, from: usize) -> (rest: Vec<String>)
    requires
        from <= arguments@.len(),
    ensures
        texts(rest@) == texts(arguments@).subrange(from as int, arguments@.len() as int),
{
    let mut rest: Vec<String> = Vec::new();
    let mut index: usize = from;
    while index < arguments.len()
        invariant
            from <= index <= arguments@.len(),
            rest@.len() == index - from,
            forall|i: int| 0 <= i < rest@.len() ==> (#[trigger] rest@[i])@ == arguments@[from + i]@,
        decreases arguments@.len() - index,
    {
        rest.push(arguments[index].clone());
        index = index + 1;
    }
    assert(texts(rest@) =~= texts(arguments@).subrange(from as int, arguments@.len() as int));
    rest
}

/// Decides what a command line asks for. `arguments` are the arguments
/// without the name of the program.
pub fn parse_args(arguments: Vec<String>) -> (command: Command)
    ensures
        command@ == parse(texts(arguments@)),
{
    if arguments.len() == 0 {
        return Command::NoArguments;
    }
    let ghost all = texts(arguments@);
    let mut debug: bool = false;
    let mut index: usize = 0;
    while index < arguments.len()
        invariant
            index <= arguments@.len(),
            all == texts(arguments@),
            parse(all) == scan(all, index as int, debug),
        decreases arguments@.len() - index,
    {
        let argument: &String = &arguments[index];
        assert(all[index as int] == argument@);
        if is_word(argument, "-h") || is_word(argument, "--help") {
            return Command::Usage;
        } else if is_word(argument, "-v") || is_word(argument, "--version") {
            return Command::Version;
        } else if is_word(argument, "-d") || is_word(argument, "--debug") {
            debug = true;
            index = index + 1;
        } else if starts_with_dash(argument) {
            return Command::UnexpectedOption(argument.clone());
        } else if index + 1 < arguments.len() {
            return Command::UnexpectedArguments(arguments_after(&arguments, index + 1));
        } else if !ends_with_bin(argument) {
            return Command::BadExtension(argument.clone());
        } else {
            return Command::Run(VMOptions { rom_binary: argument.clone(), debug });
        }
    }
    Command::MissingFileName
}

} // verus!
