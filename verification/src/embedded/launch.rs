//! From the raw command line to a run of the shell, and from there to the exit code.

use crate::args::{CommandLineArgs, InputBackend};
use crate::text::{has_prefix, joined, starts_with};
use vstd::prelude::*;

verus! {

/// `clap::error::ErrorKind`, with its variants as they are declared there.
#[verifier::external_type_specification]
pub struct ExErrorKind(clap::error::ErrorKind);

/// The argument that the parser gets for `arg`. The parser takes no option that starts with a
/// plus sign, so `+O` options are handed to it as long ones.
pub open spec fn rewritten(arg: Seq<char>) -> Seq<char> {
    if has_prefix(arg, "+O"@) {
        "--"@ + arg
    } else {
        arg
    }
}

/// Whether `result` is the command line that the parser gets for `args`.
pub open spec fn is_rewriting(result: Seq<String>, args: Seq<String>) -> bool {
    &&& result.len() == args.len()
    &&& forall|i: int| 0 <= i < args.len() ==> (#[trigger] result[i])@ == rewritten(args[i]@)
}

/// The command line that the parser gets for `args`.
pub fn rewrite_args(args: &Vec<String>) -> (result: Vec<String>)
    ensures
        is_rewriting(result@, args@),
{
    let mut result: Vec<String> = Vec::new();
    let mut i: usize = 0;
    while i < args.len()
        invariant
            i <= args.len(),
            result@.len() == i,
            forall|j: int| 0 <= j < i ==> (#[trigger] result@[j])@ == rewritten(args@[j]@),
        decreases args.len() - i,
    {
        if starts_with(args[i].as_str(), "+O") {
            result.push(joined("--", args[i].as_str()));
        } else {
            result.push(args[i].clone());
        }
        i += 1;
    }
    result
}

/// The exit code for a command line that does not parse. A request for help or for the version
/// counts as one, but is no failure.
pub open spec fn parse_error_code(kind: clap::error::ErrorKind) -> i32 {
    if kind is DisplayVersion || kind is DisplayHelp {
        0
    } else {
        1
    }
}

/// The exit code for a command line that does not parse.
pub fn parse_error_exit_code(kind: clap::error::ErrorKind) -> (code: i32)
    ensures
        code == parse_error_code(kind),
{
    match kind {
        clap::error::ErrorKind::DisplayVersion => 0,
        clap::error::ErrorKind::DisplayHelp => 0,
        _ => 1,
    }
}

/// The exit code of a run of the shell: the code that the run ended with, or one where it did
/// not come to an end.
pub open spec fn run_code<E>(result: Result<u8, E>) -> i32 {
    match result {
        Ok(code) => code as i32,
        Err(_) => 1,
    }
}

/// The exit code of a run of the shell.
pub fn exit_code<E>(result: &Result<u8, E>) -> (code: i32)
    ensures
        code == run_code(*result),
{
    match result {
        Ok(code) => *code as i32,
        Err(_) => 1,
    }
}

/// What reads the user's input where nothing was chosen. The line editor is only used where the
/// platform has one, and where standard input is a terminal: it does not work without.
pub open spec fn default_backend(has_line_editor: bool, stdin_is_terminal: bool) -> InputBackend {
    if has_line_editor && stdin_is_terminal {
        InputBackend::Reedline
    } else {
        InputBackend::Minimal
    }
}

/// What reads the user's input where nothing was chosen.
pub fn get_default_input_backend(has_line_editor: bool, stdin_is_terminal: bool) -> (backend: InputBackend)
    ensures
        backend == default_backend(has_line_editor, stdin_is_terminal),
{
    if has_line_editor {
        if stdin_is_terminal {
            InputBackend::Reedline
        } else {
            InputBackend::Minimal
        }
    } else {
        InputBackend::Minimal
    }
}

/// What reads the user's input: what was chosen, or `default_backend`.
pub open spec fn chosen_backend(args: CommandLineArgs, default_backend: InputBackend) -> InputBackend {
    match args.input_backend {
        Some(chosen) => chosen,
        None => default_backend,
    }
}

/// What reads the user's input.
pub fn run_async(args: &CommandLineArgs, default_backend: InputBackend) -> (backend: InputBackend)
    ensures
        backend == chosen_backend(*args, default_backend),
{
    match args.input_backend {
        Some(chosen) => chosen,
        None => default_backend,
    }
}

/// What resetting the terminal comes to, where `screen` is what came of resetting the screen and
/// `raw_mode` what came of leaving raw mode, which is tried in any case: the first error, if any.
pub fn try_reset_terminal_to_defaults<E>(screen: Result<(), E>, raw_mode: Result<(), E>) -> (result: Result<
    (),
    E,
>)
    ensures
        result == (if screen is Err {
            screen
        } else {
            raw_mode
        }),
{
    match screen {
        Ok(_) => raw_mode,
        Err(error) => Err(error),
    }
}

} // verus!
