//! What a shell that has been created is made to run.

use crate::args::CommandLineArgs;
use vstd::prelude::*;

verus! {

/// The shell's parameters, as far as the command line sets them.
#[derive(Debug)]
pub struct ShellParameters {
    /// The shell's name (`$0`).
    pub shell_name: Option<String>,
    /// The positional parameters (`$1` and so on).
    pub positional_parameters: Vec<String>,
}

/// What the shell is made to do.
#[derive(Debug)]
pub enum Invocation {
    /// Run this string of commands.
    RunString(String),
    /// Run the script at this path.
    RunScript {
        /// The script's path.
        path: String,
        /// The script's arguments.
        args: Vec<String>,
    },
    /// Read commands from standard input.
    RunInteractively,
}

/// All of `args` but the first.
pub open spec fn all_but_first(args: Seq<String>) -> Seq<String> {
    if args.len() == 0 {
        args
    } else {
        args.skip(1)
    }
}

/// Whether commands are read from standard input: where none was given and no script either, or
/// where that was asked for.
pub open spec fn reads_stdin(args: CommandLineArgs) -> bool {
    args.command is None && (args.read_commands_from_stdin || args.script_args@.len() == 0)
}

/// Whether `invocation` is what `args` ask for: a command comes first, then standard input, then
/// a script, and standard input where there is nothing else.
pub open spec fn invokes(invocation: Invocation, args: CommandLineArgs) -> bool {
    match args.command {
        Some(command) => invocation == Invocation::RunString(command),
        None => if reads_stdin(args) {
            invocation is RunInteractively
        } else {
            &&& invocation matches Invocation::RunScript { path, args: rest }
            &&& path == args.script_args@[0]
            &&& rest@ == all_but_first(args.script_args@)
        },
    }
}

/// The shell's name, which was `before`. Only a command is accompanied by a name.
pub open spec fn name_for(args: CommandLineArgs, before: Option<String>) -> Option<String> {
    if args.command is Some && args.script_args@.len() > 0 {
        Some(args.script_args@[0])
    } else {
        before
    }
}

/// The positional parameters, which were `before`. Those of a script are set by running it.
pub open spec fn parameters_for(args: CommandLineArgs, before: Seq<String>) -> Seq<String> {
    if args.command is Some {
        all_but_first(args.script_args@)
    } else if args.read_commands_from_stdin && args.script_args@.len() > 0 {
        args.script_args@
    } else {
        before
    }
}

/// Parts `args`, which are not none, into the first and the others.
fn split_first(args: Vec<String>) -> (parts: (String, Vec<String>))
    requires
        args@.len() > 0,
    ensures
        parts.0 == args@[0],
        parts.1@ == all_but_first(args@),
{
    let ghost all = args@;
    let mut args = args;
    let first: String = args.remove(0);
    assert(args@ =~= all.skip(1));
    (first, args)
}

/// Sets the shell's parameters as `args` ask for, and says what the shell is then made to do.
pub fn run_in_shell(args: CommandLineArgs, shell: &mut ShellParameters) -> (invocation: Invocation)
    ensures
        invokes(invocation, args),
        final(shell).shell_name == name_for(args, old(shell).shell_name),
        final(shell).positional_parameters@ == parameters_for(
            args,
            old(shell).positional_parameters@,
        ),
{
    let script_args: Vec<String> = args.script_args;
    if let Some(command) = args.command {
        if script_args.is_empty() {
            shell.positional_parameters = script_args;
        } else {
            let (name, rest) = split_first(script_args);
            shell.shell_name = Some(name);
            shell.positional_parameters = rest;
        }
        Invocation::RunString(command)
    } else if args.read_commands_from_stdin {
        if !script_args.is_empty() {
            shell.positional_parameters = script_args;
        }
        Invocation::RunInteractively
    } else if !script_args.is_empty() {
        let (path, rest) = split_first(script_args);
        Invocation::RunScript { path, args: rest }
    } else {
        Invocation::RunInteractively
    }
}

/// What a run comes to: the last result that the shell observed, unless the invocation failed.
pub open spec fn run_result<E>(outcome: Result<(), E>, last_result: u8) -> Result<u8, E> {
    match outcome {
        Ok(_) => Ok(last_result),
        Err(error) => Err(error),
    }
}

/// What a run comes to, where `outcome` is what came of the invocation and `last_result` the
/// last result that the shell observed.
pub fn finish_run<E>(outcome: Result<(), E>, last_result: u8) -> (result: Result<u8, E>)
    ensures
        result == run_result(outcome, last_result),
{
    match outcome {
        Ok(_) => Ok(last_result),
        Err(error) => Err(error),
    }
}

/// Why a run did not come to an end.
#[derive(Debug)]
pub enum RunError<S, O> {
    /// An error of the shell itself.
    Shell(S),
    /// Any other error.
    Other(O),
}

/// How an error is reported.
#[derive(Debug)]
pub enum Report<S, O> {
    /// There is none.
    Nothing,
    /// The shell displays it on its standard error.
    Display(S),
    /// It is logged.
    Log(O),
}

/// The code that a run ends with, and what is to be reported: an error is reported, in its own
/// way, and turned into the code one.
pub open spec fn end_of_run<S, O>(result: Result<u8, RunError<S, O>>) -> (u8, Report<S, O>) {
    match result {
        Ok(code) => (code, Report::Nothing),
        Err(RunError::Shell(error)) => (1, Report::Display(error)),
        Err(RunError::Other(error)) => (1, Report::Log(error)),
    }
}

/// The code that a run ends with, and what is to be reported.
pub fn run_impl<S, O>(result: Result<u8, RunError<S, O>>) -> (ended: (u8, Report<S, O>))
    ensures
        ended == end_of_run(result),
{
    match result {
        Ok(code) => (code, Report::Nothing),
        Err(RunError::Shell(error)) => (1, Report::Display(error)),
        Err(RunError::Other(error)) => (1, Report::Log(error)),
    }
}

} // verus!
