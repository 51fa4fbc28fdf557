//! A run of the shell, step by step.

use crate::args::{extended, CommandLineArgs, InputBackend};
use crate::embedded::launch::{
    chosen_backend, default_backend, exit_code, get_default_input_backend, is_rewriting,
    parse_error_code, parse_error_exit_code, rewrite_args, run_async, run_code,
};
use crate::embedded::options::{instantiate_shell, options_for, Options, Surroundings};
use crate::embedded::run::{
    end_of_run, finish_run, invokes, name_for, parameters_for, run_impl, run_in_shell, run_result,
    Invocation, Report, RunError, ShellParameters,
};
use vstd::prelude::*;

verus! {

/// A run whose command line is to be parsed.
#[derive(Debug)]
pub struct Parsing {
    /// The command line, as the parser gets it.
    pub cli_args: Vec<String>,
}

/// What to do once the command line has been parsed.
#[derive(Debug)]
pub enum Launch {
    /// Exit with this code.
    Exit(i32),
    /// Go on.
    Run(Starting),
}

/// A run whose shell is to be created.
#[derive(Debug)]
pub struct Starting {
    /// The command line, as the parser got it.
    pub cli_args: Vec<String>,
    /// The parsed command line.
    pub args: CommandLineArgs,
}

/// A shell to create.
#[derive(Debug)]
pub struct Creation<F, R> {
    /// What reads the user's input.
    pub backend: InputBackend,
    /// The shell's options.
    pub options: Options<F, R>,
    /// The run, once the shell has been created.
    pub created: Created,
}

/// A run whose shell has been created.
#[derive(Debug)]
pub struct Created {
    /// The parsed command line.
    pub args: CommandLineArgs,
}

/// Begins a run with the command line `args`.
pub fn run_custom(args: &Vec<String>) -> (run: Parsing)
    ensures
        is_rewriting(run.cli_args@, args@),
{
    Parsing { cli_args: rewrite_args(args) }
}

impl Parsing {
    /// Goes on, where `parsed` is what the parser made of the command line: the arguments that it
    /// knows and those that it left alone, or the kind of its error.
    pub fn parsed(
        self,
        parsed: Result<(CommandLineArgs, Option<Vec<String>>), clap::error::ErrorKind>,
    ) -> (launch: Launch)
        ensures
            match parsed {
                Ok((this, rest)) => {
                    &&& launch matches Launch::Run(run)
                    &&& run.cli_args == self.cli_args
                    &&& run.args == (CommandLineArgs { script_args: run.args.script_args, ..this })
                    &&& run.args.script_args@ == extended(this.script_args@, rest)
                },
                Err(kind) => launch == Launch::Exit(parse_error_code(kind)),
            },
    {
        match CommandLineArgs::try_parse_from_embedded(parsed) {
            Ok(args) => Launch::Run(Starting { cli_args: self.cli_args, args }),
            Err(kind) => Launch::Exit(parse_error_exit_code(kind)),
        }
    }
}

impl Starting {
    /// Goes on to create the shell, given whether the platform has a line editor, whether
    /// standard input is a terminal, the builtin commands that the embedding program adds, and
    /// what else was found out.
    pub fn create<F, R>(
        self,
        has_line_editor: bool,
        stdin_is_terminal: bool,
        extra_builtins: Vec<(String, R)>,
        surroundings: Surroundings<F, R>,
    ) -> (creation: Creation<F, R>)
        ensures
            creation.backend == chosen_backend(
                self.args,
                default_backend(has_line_editor, stdin_is_terminal),
            ),
            options_for(
                creation.options,
                self.args,
                self.cli_args@,
                extra_builtins@,
                surroundings,
            ),
            creation.created.args == self.args,
    {
        let backend: InputBackend = run_async(
            &self.args,
            get_default_input_backend(has_line_editor, stdin_is_terminal),
        );
        let options: Options<F, R> = instantiate_shell(
            &self.args,
            &self.cli_args,
            extra_builtins,
            surroundings,
        );
        Creation { backend, options, created: Created { args: self.args } }
    }

    /// Ends a run whose shell cannot be created, for the reason `error`: gives the exit code, and
    /// says what is to be reported. There is no shell that could display the error, so it is
    /// logged.
    pub fn not_created<S, O>(error: O) -> (ended: (i32, Report<S, O>))
        ensures
            ended.0 == run_code(Err::<u8, O>(error)),
            ended.1 == Report::<S, O>::Log(error),
    {
        let code: i32 = exit_code(&Err::<u8, &O>(&error));
        (code, Report::Log(error))
    }
}

impl Created {
    /// Sets the parameters of the shell, and says what it is then made to do.
    pub fn invoke(self, shell: &mut ShellParameters) -> (invocation: Invocation)
        ensures
            invokes(invocation, self.args),
            final(shell).shell_name == name_for(self.args, old(shell).shell_name),
            final(shell).positional_parameters@ == parameters_for(
                self.args,
                old(shell).positional_parameters@,
            ),
    {
        run_in_shell(self.args, shell)
    }
}

/// Ends a run, where `outcome` is what came of the invocation and `last_result` the last result
/// that the shell observed: gives the exit code, and says what is to be reported.
pub fn end_run<S, O>(outcome: Result<(), RunError<S, O>>, last_result: u8) -> (ended: (
    i32,
    Report<S, O>,
))
    ensures
        ended.0 == run_code(Ok::<u8, O>(end_of_run(run_result(outcome, last_result)).0)),
        ended.1 == end_of_run(run_result(outcome, last_result)).1,
{
    let (code, report) = run_impl(finish_run(outcome, last_result));
    (exit_code(&Ok::<u8, O>(code)), report)
}

} // verus!
