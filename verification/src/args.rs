//! The command line of the shell, once it has been parsed.

use vstd::prelude::*;

verus! {

/// What reads the user's input.
#[derive(Clone, Copy, Debug, PartialEq, Eq, Structural)]
pub enum InputBackend {
    /// A full line editor.
    Reedline,
    /// A basic line editor.
    Basic,
    /// No line editor.
    Minimal,
}

/// The parsed command line.
#[derive(Debug, Default)]
pub struct CommandLineArgs {
    /// The command to run (`-c`).
    pub command: Option<String>,
    /// Whether commands are read from standard input (`-s`).
    pub read_commands_from_stdin: bool,
    /// The script to run and its arguments, or what stands in their place.
    pub script_args: Vec<String>,
    /// Whether to behave as `sh`.
    pub sh_mode: bool,
    /// Whether to comply strictly with the POSIX standard.
    pub posix: bool,
    /// Whether to be a login shell.
    pub login: bool,
    /// What reads the user's input, where that was chosen.
    pub input_backend: Option<InputBackend>,
    /// The kinds of debug events to trace, by name.
    pub enabled_debug_events: Vec<String>,
    /// The kinds of events not to trace, by name.
    pub disabled_events: Vec<String>,
    /// The file descriptors to inherit.
    pub inherited_fds: Vec<i32>,
    /// The `set -o` options to switch on.
    pub enabled_options: Vec<String>,
    /// The `set -o` options to switch off.
    pub disabled_options: Vec<String>,
    /// The `shopt` options to switch on.
    pub enabled_shopt_options: Vec<String>,
    /// The `shopt` options to switch off.
    pub disabled_shopt_options: Vec<String>,
    /// Whether output redirection must not overwrite regular files.
    pub disallow_overwriting_regular_files_via_output_redirection: bool,
    /// Whether commands are only read, not executed.
    pub do_not_execute_commands: bool,
    /// Whether to exit after one command.
    pub exit_after_one_command: bool,
    /// Whether line editing is off.
    pub no_editing: bool,
    /// Whether profile files are skipped.
    pub no_profile: bool,
    /// Whether the rc file is skipped.
    pub no_rc: bool,
    /// The rc file, where it is not the usual one.
    pub rc_file: Option<String>,
    /// Whether the environment is not inherited.
    pub do_not_inherit_env: bool,
    /// Whether commands and their arguments are printed as they are executed.
    pub print_commands_and_arguments: bool,
    /// Whether the use of an unset variable is an error.
    pub treat_unset_variables_as_error: bool,
    /// Whether input is printed as it is read.
    pub verbose: bool,
    /// Whether bracketed paste is off.
    pub disable_bracketed_paste: bool,
    /// Whether colored output is off.
    pub disable_color: bool,
    /// Whether input is highlighted.
    pub enable_highlighting: bool,
}

/// `first`, followed by the elements of `rest`, if there are any.
pub open spec fn extended(first: Seq<String>, rest: Option<Vec<String>>) -> Seq<String> {
    match rest {
        Some(rest) => first + rest@,
        None => first,
    }
}

impl CommandLineArgs {
    /// Completes a parsed command line: the arguments that the parser left alone, those behind
    /// `--`, are script arguments too. An error of the parser stays as it is.
    pub fn try_parse_from_embedded<E>(
        parsed: Result<(CommandLineArgs, Option<Vec<String>>), E>,
    ) -> (args: Result<CommandLineArgs, E>)
        ensures
            match parsed {
                Ok((this, rest)) => {
                    &&& args matches Ok(args)
                    &&& args == (CommandLineArgs { script_args: args.script_args, ..this })
                    &&& args.script_args@ == extended(this.script_args@, rest)
                },
                Err(error) => args == Err::<CommandLineArgs, E>(error),
            },
    {
        match parsed {
            Ok((this, script_args)) => {
                let mut this = this;
                if let Some(rest) = script_args {
                    let mut rest = rest;
                    this.script_args.append(&mut rest);
                }
                Ok(this)
            },
            Err(error) => Err(error),
        }
    }
}

} // verus!
