//! What holds of a run of the embedded shell as a whole.

use crate::args::{extended, CommandLineArgs, InputBackend};
use crate::embedded::launch::{
    chosen_backend, default_backend, is_rewriting, parse_error_code, rewritten, run_code,
};
use crate::embedded::options::{
    is_login, open_files, optional_text, options_for, registered, Options, Surroundings,
};
use crate::embedded::run::{
    all_but_first, end_of_run, invokes, name_for, parameters_for, run_result, Invocation, Report,
    RunError,
};
use crate::text::has_prefix;
use vstd::prelude::*;

verus! {

/// The parser never sees an argument that starts with `+O`; an argument that was rewritten still
/// holds the whole original behind two hyphens; and to rewrite twice is to rewrite once.
pub proof fn rewriting_hides_plus_options(arg: Seq<char>)
    ensures
        !has_prefix(rewritten(arg), "+O"@),
        rewritten(arg) == arg || rewritten(arg) == "--"@ + arg,
        rewritten(rewritten(arg)) == rewritten(arg),
{
    reveal_strlit("+O");
    reveal_strlit("--");
    if has_prefix(arg, "+O"@) {
        assert(("--"@ + arg).take(2)[0] == '-');
        assert("+O"@[0] == '+');
    }
}

/// The options that the shell is created with agree with what it is then made to run: it is told
/// that it reads commands from standard input exactly if it is made to, and that it runs a
/// command string exactly if it does.
pub proof fn options_agree_with_invocation<F, R>(
    options: Options<F, R>,
    args: CommandLineArgs,
    cli_args: Seq<String>,
    extra_builtins: Seq<(String, R)>,
    surroundings: Surroundings<F, R>,
    invocation: Invocation,
)
    requires
        options_for(options, args, cli_args, extra_builtins, surroundings),
        invokes(invocation, args),
    ensures
        options.shell.read_commands_from_stdin <==> invocation is RunInteractively,
        options.shell.command_string_mode <==> invocation is RunString,
{
}

/// A shell that behaves as `sh` is called `sh`, complies with the POSIX standard, and is a login
/// shell only where that was asked for.
pub proof fn sh_mode_is_consistent<F, R>(
    options: Options<F, R>,
    args: CommandLineArgs,
    cli_args: Seq<String>,
    extra_builtins: Seq<(String, R)>,
    surroundings: Surroundings<F, R>,
)
    requires
        options_for(options, args, cli_args, extra_builtins, surroundings),
        args.sh_mode,
    ensures
        optional_text(options.shell.shell_name) == Some("sh"@),
        options.shell.posix,
        options.shell.sh_mode,
        options.shell.login == args.login,
{
    reveal_strlit("sh");
    reveal_strlit("-");
    assert("sh"@.take(1)[0] == 's');
    assert("-"@[0] == '-');
}

/// A shell whose name starts with a hyphen is a login shell, unless it behaves as `sh`.
pub proof fn hyphen_means_login(args: CommandLineArgs, cli_args: Seq<String>)
    requires
        !args.sh_mode,
        cli_args.len() > 0,
        has_prefix(cli_args[0]@, "-"@),
    ensures
        is_login(args, cli_args),
{
}

/// Errors are formatted with color exactly if the user interface uses color.
pub proof fn errors_are_colored_alike<F, R>(
    options: Options<F, R>,
    args: CommandLineArgs,
    cli_args: Seq<String>,
    extra_builtins: Seq<(String, R)>,
    surroundings: Surroundings<F, R>,
)
    requires
        options_for(options, args, cli_args, extra_builtins, surroundings),
    ensures
        options.shell.error_formatter matches Some(formatter) && formatter.use_color
            == !options.disable_color,
{
}

/// A builtin command that the embedding program registers takes the place of the default one of
/// that name, and leaves all others alone.
pub proof fn extra_builtins_have_precedence<R>(
    defaults: Seq<(String, R)>,
    extra: Seq<(String, R)>,
)
    ensures
        registered(defaults + extra) == registered(defaults).union_prefer_right(registered(extra)),
    decreases extra.len(),
{
    if extra.len() == 0 {
        assert(defaults + extra =~= defaults);
    } else {
        extra_builtins_have_precedence(defaults, extra.drop_last());
        assert((defaults + extra).drop_last() =~= defaults + extra.drop_last());
        assert((defaults + extra).last() == extra.last());
    }
    assert(registered(defaults + extra) =~= registered(defaults).union_prefer_right(
        registered(extra),
    ));
}

/// Whether the `i`-th descriptor is `fd`, and a file is open under it.
pub open spec fn opens<F>(fds: Seq<i32>, files: Seq<Option<F>>, fd: i32, i: int) -> bool {
    0 <= i < fds.len() && fds[i] == fd && i < files.len() && files[i] is Some
}

/// The shell inherits what is open under the descriptors that it was told to inherit, and
/// nothing else.
pub proof fn only_open_descriptors_are_inherited<F>(fds: Seq<i32>, files: Seq<Option<F>>, fd: i32)
    ensures
        open_files(fds, files).contains_key(fd) <==> exists|i: int| opens(fds, files, fd, i),
    decreases fds.len(),
{
    if fds.len() > 0 {
        let others = fds.drop_last();
        let last = fds.len() - 1;
        only_open_descriptors_are_inherited(others, files, fd);
        if open_files(fds, files).contains_key(fd) {
            if !opens(fds, files, fd, last) {
                let i = choose|i: int| opens(others, files, fd, i);
                assert(opens(fds, files, fd, i));
            }
        }
        if exists|i: int| opens(fds, files, fd, i) {
            let i = choose|i: int| opens(fds, files, fd, i);
            if i < last {
                assert(opens(others, files, fd, i));
            }
        }
    }
}

/// Under a descriptor that was named more than once, the shell inherits the file that was given
/// last.
pub proof fn last_file_is_inherited<F>(fds: Seq<i32>, files: Seq<Option<F>>, fd: i32, i: int)
    requires
        opens(fds, files, fd, i),
        forall|j: int| i < j ==> !#[trigger] opens(fds, files, fd, j),
    ensures
        open_files(fds, files)[fd] == files[i]->0,
    decreases fds.len(),
{
    let others = fds.drop_last();
    let last = fds.len() - 1;
    if i < last {
        assert(!opens(fds, files, fd, last));
        assert forall|j: int| i < j implies !#[trigger] opens(others, files, fd, j) by {
            assert(!opens(fds, files, fd, j));
        }
        last_file_is_inherited(others, files, fd, i);
    }
}

/// What stands behind a command on the command line becomes the shell's name and its positional
/// parameters, without loss; a script gets what stands behind it; and the shell's name and
/// parameters are left alone where a script is run or where nothing is given.
pub proof fn arguments_are_passed_on(
    args: CommandLineArgs,
    invocation: Invocation,
    name: Option<String>,
    parameters: Seq<String>,
)
    requires
        invokes(invocation, args),
    ensures
        args.command is Some && args.script_args@.len() > 0 ==> (name_for(args, name) matches Some(n)
            && args.script_args@ == seq![n] + parameters_for(args, parameters)),
        args.command is Some && args.script_args@.len() == 0 ==> parameters_for(args, parameters)
            == Seq::<String>::empty(),
        args.command is None ==> name_for(args, name) == name,
        invocation matches Invocation::RunScript { path, args: rest } ==> args.script_args@
            == seq![path] + rest@ && parameters_for(args, parameters) == parameters,
        args.script_args@.len() == 0 ==> name_for(args, name) == name,
{
    if args.script_args@.len() > 0 {
        assert(args.script_args@ =~= seq![args.script_args@[0]] + all_but_first(args.script_args@));
    }
    if args.command is Some && args.script_args@.len() == 0 {
        assert(parameters_for(args, parameters) =~= Seq::<String>::empty());
    }
}

/// A command has precedence over everything else. Without one, a shell that is told to read
/// standard input does so even where a script is named: the script and its arguments become the
/// positional parameters, and the script is not run.
pub proof fn script_is_not_run_beside_stdin(
    args: CommandLineArgs,
    invocation: Invocation,
    parameters: Seq<String>,
)
    requires
        invokes(invocation, args),
    ensures
        args.command matches Some(command) ==> invocation == Invocation::RunString(command),
        args.command is None && args.read_commands_from_stdin ==> invocation is RunInteractively,
        args.command is None && args.read_commands_from_stdin && args.script_args@.len() > 0
            ==> parameters_for(args, parameters) == args.script_args@,
{
}

/// The exit code is zero or one where the command line does not parse, and fits into a byte in
/// any case. A run whose invocation succeeds exits with the shell's last result; a run that
/// fails, in whatever way, exits with one.
pub proof fn exit_codes<S, O>(
    kind: clap::error::ErrorKind,
    outcome: Result<(), RunError<S, O>>,
    last_result: u8,
    creation_error: O,
)
    ensures
        parse_error_code(kind) == 0 || parse_error_code(kind) == 1,
        parse_error_code(kind) == 0 <==> kind is DisplayHelp || kind is DisplayVersion,
        ({
            let ended = end_of_run(run_result(outcome, last_result));
            let code = run_code(Ok::<u8, O>(ended.0));
            &&& 0 <= code <= 255
            &&& outcome is Ok ==> code == last_result
            &&& outcome is Err ==> code == 1
            &&& ended.1 is Nothing <==> outcome is Ok
        }),
        run_code(Err::<u8, O>(creation_error)) == 1,
{
}

/// An argument that starts with `+O` reaches the parser behind two hyphens, and every other one
/// reaches it as it is.
pub proof fn only_plus_options_are_rewritten(arg: Seq<char>)
    ensures
        arg.len() >= 2 && arg[0] == '+' && arg[1] == 'O' ==> rewritten(arg) == seq!['-', '-'] + arg,
        !(arg.len() >= 2 && arg[0] == '+' && arg[1] == 'O') ==> rewritten(arg) == arg,
{
    reveal_strlit("+O");
    reveal_strlit("--");
    assert("--"@ =~= seq!['-', '-']);
    assert("+O"@ =~= seq!['+', 'O']);
    if arg.len() >= 2 && arg[0] == '+' && arg[1] == 'O' {
        assert(arg.take(2) =~= "+O"@);
    } else if arg.len() >= 2 {
        assert(arg.take(2)[0] == arg[0] && arg.take(2)[1] == arg[1]);
    }
}

/// The parser gets as many arguments as there are, each in its place: those that start with `+O`
/// behind two hyphens, all others as they are.
pub proof fn every_argument_reaches_the_parser(result: Seq<String>, args: Seq<String>, i: int)
    requires
        is_rewriting(result, args),
    ensures
        result.len() == args.len(),
        0 <= i < args.len() ==> {
            let arg = args[i]@;
            if arg.len() >= 2 && arg[0] == '+' && arg[1] == 'O' {
                result[i]@ == seq!['-', '-'] + arg
            } else {
                result[i]@ == arg
            }
        },
{
    if 0 <= i < args.len() {
        only_plus_options_are_rewritten(args[i]@);
        assert(result[i]@ == rewritten(args[i]@));
    }
}

/// The arguments that the parser left alone come behind those that it took for script arguments,
/// all of them and in their order.
pub proof fn left_arguments_come_last(first: Seq<String>, rest: Vec<String>)
    ensures
        extended(first, None) == first,
        extended(first, Some(rest)) == first + rest@,
{
}

/// What the shell is made to run depends on the command, on whether standard input was asked for,
/// and on the script arguments, and on nothing else. A command is run, with the first script
/// argument for the shell's name and the others for its parameters; without a command, standard
/// input is read where that was asked for, with all script arguments for parameters; without
/// either, the first script argument is the script that is run, with the others for its
/// arguments; and where there is none of these, standard input is read and nothing is set.
pub proof fn what_is_run_and_with_what(
    args: CommandLineArgs,
    invocation: Invocation,
    name: Option<String>,
    parameters: Seq<String>,
)
    requires
        invokes(invocation, args),
    ensures
        ({
            let given = args.script_args@;
            let named = name_for(args, name);
            let set = parameters_for(args, parameters);
            &&& args.command is Some ==> invocation == Invocation::RunString(args.command->0)
            &&& args.command is Some && given.len() > 0 ==> named == Some(given[0])
            &&& args.command is Some && given.len() > 0 ==> set == given.subrange(
                1,
                given.len() as int,
            )
            &&& args.command is Some && given.len() == 0 ==> named == name && set.len() == 0
            &&& args.command is None ==> named == name
            &&& args.command is None && args.read_commands_from_stdin
                ==> invocation is RunInteractively
            &&& args.command is None && args.read_commands_from_stdin && given.len() > 0 ==> set
                == given
            &&& args.command is None && args.read_commands_from_stdin && given.len() == 0 ==> set
                == parameters
            &&& args.command is None && !args.read_commands_from_stdin ==> set == parameters
            &&& args.command is None && !args.read_commands_from_stdin && given.len() > 0 ==> {
                &&& invocation is RunScript
                &&& invocation->path == given[0]
                &&& invocation->RunScript_args@ == given.subrange(1, given.len() as int)
            }
            &&& args.command is None && !args.read_commands_from_stdin && given.len() == 0
                ==> invocation is RunInteractively
        }),
{
    let given = args.script_args@;
    if given.len() > 0 {
        assert(given.skip(1) =~= given.subrange(1, given.len() as int));
    }
}

/// Two command lines that agree in the command, in whether standard input was asked for and in the
/// script arguments run the same, however they differ otherwise.
pub proof fn other_flags_do_not_change_what_is_run(
    a: CommandLineArgs,
    b: CommandLineArgs,
    invocation: Invocation,
    name: Option<String>,
    parameters: Seq<String>,
)
    requires
        a.command == b.command,
        a.read_commands_from_stdin == b.read_commands_from_stdin,
        a.script_args@ == b.script_args@,
    ensures
        invokes(invocation, a) <==> invokes(invocation, b),
        name_for(a, name) == name_for(b, name),
        parameters_for(a, parameters) == parameters_for(b, parameters),
{
}

/// A run comes to the shell's last result, or to the error of its invocation; an error of the
/// shell itself is displayed and any other is logged, each as it is, and both make the code one.
pub proof fn errors_are_reported_as_they_are<S, O>(last_result: u8, shell: S, other: O, code: u8)
    ensures
        run_result(Ok::<(), O>(()), last_result) == Ok::<u8, O>(last_result),
        run_result(Err::<(), O>(other), last_result) == Err::<u8, O>(other),
        end_of_run(Ok::<u8, RunError<S, O>>(code)) == (code, Report::<S, O>::Nothing),
        end_of_run(Err::<u8, RunError<S, O>>(RunError::Shell(shell))) == (
            1u8,
            Report::<S, O>::Display(shell),
        ),
        end_of_run(Err::<u8, RunError<S, O>>(RunError::Other(other))) == (
            1u8,
            Report::<S, O>::Log(other),
        ),
        run_code(Ok::<u8, O>(code)) == code,
        run_code(Err::<u8, O>(other)) == 1,
{
}

/// Input is read by what was chosen. Where nothing was, it is read by the line editor if there is
/// one and standard input is a terminal, and without a line editor otherwise.
pub proof fn input_is_read_by_choice(
    args: CommandLineArgs,
    has_line_editor: bool,
    stdin_is_terminal: bool,
    chosen: InputBackend,
)
    ensures
        ({
            let backend = chosen_backend(args, default_backend(has_line_editor, stdin_is_terminal));
            &&& args.input_backend == Some(chosen) ==> backend == chosen
            &&& args.input_backend is None && has_line_editor && stdin_is_terminal ==> backend
                == InputBackend::Reedline
            &&& args.input_backend is None && !(has_line_editor && stdin_is_terminal) ==> backend
                == InputBackend::Minimal
        }),
        chosen_backend(args, chosen) == (if args.input_backend is Some {
            args.input_backend->0
        } else {
            chosen
        }),
        default_backend(has_line_editor, stdin_is_terminal) == (if !has_line_editor {
            InputBackend::Minimal
        } else if stdin_is_terminal {
            InputBackend::Reedline
        } else {
            InputBackend::Minimal
        }),
{
}

/// Every option that the command line gives is taken over by the shell, one for one.
pub proof fn every_option_is_taken_over<F, R>(
    options: Options<F, R>,
    args: CommandLineArgs,
    cli_args: Seq<String>,
    extra_builtins: Seq<(String, R)>,
    surroundings: Surroundings<F, R>,
)
    requires
        options_for(options, args, cli_args, extra_builtins, surroundings),
    ensures
        options.shell.disabled_options@ == args.disabled_options@,
        options.shell.disabled_shopt_options@ == args.disabled_shopt_options@,
        options.shell.enabled_options@ == args.enabled_options@,
        options.shell.enabled_shopt_options@ == args.enabled_shopt_options@,
        options.shell.disallow_overwriting_regular_files_via_output_redirection
            == args.disallow_overwriting_regular_files_via_output_redirection,
        options.shell.do_not_execute_commands == args.do_not_execute_commands,
        options.shell.exit_after_one_command == args.exit_after_one_command,
        options.shell.no_editing == args.no_editing,
        options.shell.no_profile == args.no_profile,
        options.shell.no_rc == args.no_rc,
        options.shell.rc_file == args.rc_file,
        options.shell.do_not_inherit_env == args.do_not_inherit_env,
        options.shell.print_commands_and_arguments == args.print_commands_and_arguments,
        options.shell.sh_mode == args.sh_mode,
        options.shell.treat_unset_variables_as_error == args.treat_unset_variables_as_error,
        options.shell.verbose == args.verbose,
        options.disable_bracketed_paste == args.disable_bracketed_paste,
        options.disable_color == args.disable_color,
        options.disable_highlighting == !args.enable_highlighting,
{
}

/// What the shell is told besides: its name and whether it is a login shell by how it was called,
/// where its commands come from, whether it follows the standard, how errors are formatted, and
/// what it is as a product.
pub proof fn every_other_option_has_its_reason<F, R>(
    options: Options<F, R>,
    args: CommandLineArgs,
    cli_args: Seq<String>,
    extra_builtins: Seq<(String, R)>,
    surroundings: Surroundings<F, R>,
)
    requires
        options_for(options, args, cli_args, extra_builtins, surroundings),
    ensures
        ({
            let shell = options.shell;
            let hyphen = cli_args.len() > 0 && cli_args[0]@.len() > 0 && cli_args[0]@[0] == '-';
            &&& args.sh_mode ==> shell.shell_name is Some && shell.shell_name->0@ == seq!['s', 'h']
            &&& !args.sh_mode && cli_args.len() > 0 ==> shell.shell_name is Some
                && shell.shell_name->0@ == cli_args[0]@
            &&& !args.sh_mode && cli_args.len() == 0 ==> shell.shell_name is None
            &&& shell.login <==> args.login || (!args.sh_mode && hyphen)
            &&& shell.interactive == surroundings.interactive
            &&& shell.command_string_mode == (args.command is Some)
            &&& shell.read_commands_from_stdin <==> args.command is None && (
            args.read_commands_from_stdin || args.script_args@.len() == 0)
            &&& shell.posix == (args.posix || args.sh_mode)
            &&& shell.error_formatter is Some
            &&& shell.error_formatter->0.use_color == !args.disable_color
            &&& shell.shell_product_display_str == Some(surroundings.product_display_str)
            &&& shell.shell_version == Some(surroundings.version)
            &&& shell.max_function_call_depth is None
            &&& !shell.key_bindings
        }),
{
    reveal_strlit("sh");
    reveal_strlit("-");
    assert("sh"@ =~= seq!['s', 'h']);
    assert("-"@ =~= seq!['-']);
    assert("sh"@.take(1)[0] == 's');
    if cli_args.len() > 0 && cli_args[0]@.len() > 0 {
        assert(cli_args[0]@.take(1)[0] == cli_args[0]@[0]);
        if cli_args[0]@[0] == '-' {
            assert(cli_args[0]@.take(1) =~= "-"@);
        }
    }
}

/// The shell has a file under a descriptor exactly if it was told to inherit that descriptor and a
/// file was found open under it, and it is that file: the last one where there are several.
pub proof fn inherited_files_are_those_found<F, R>(
    options: Options<F, R>,
    args: CommandLineArgs,
    cli_args: Seq<String>,
    extra_builtins: Seq<(String, R)>,
    surroundings: Surroundings<F, R>,
    fd: i32,
    i: int,
)
    requires
        options_for(options, args, cli_args, extra_builtins, surroundings),
    ensures
        options.shell.fds is Some,
        ({
            let fds = args.inherited_fds@;
            let files = surroundings.inherited_files@;
            let open = options.shell.fds->0@;
            &&& open.contains_key(fd) <==> exists|j: int|
                0 <= j < fds.len() && j < files.len() && #[trigger] fds[j] == fd && files[j] is Some
            &&& 0 <= i < fds.len() && i < files.len() && fds[i] == fd && files[i] is Some && (
            forall|j: int|
                i < j < fds.len() && j < files.len() && #[trigger] fds[j] == fd
                    ==> files[j] is None) ==> open[fd] == files[i]->0
        }),
{
    let fds = args.inherited_fds@;
    let files = surroundings.inherited_files@;
    only_open_descriptors_are_inherited(fds, files, fd);
    if exists|j: int| opens(fds, files, fd, j) {
        let j = choose|j: int| opens(fds, files, fd, j);
        assert(fds[j] == fd);
    }
    if exists|j: int|
        0 <= j < fds.len() && j < files.len() && #[trigger] fds[j] == fd && files[j] is Some {
        let j = choose|j: int|
            0 <= j < fds.len() && j < files.len() && #[trigger] fds[j] == fd && files[j] is Some;
        assert(opens(fds, files, fd, j));
    }
    if opens(fds, files, fd, i) && (forall|j: int|
        i < j < fds.len() && j < files.len() && #[trigger] fds[j] == fd ==> files[j] is None) {
        assert forall|j: int| i < j implies !#[trigger] opens(fds, files, fd, j) by {
            if opens(fds, files, fd, j) {
                assert(fds[j] == fd);
            }
        }
        last_file_is_inherited(fds, files, fd, i);
    }
}

proof fn registered_names<R>(list: Seq<(String, R)>, name: Seq<char>)
    ensures
        registered(list).contains_key(name) <==> exists|j: int|
            0 <= j < list.len() && (#[trigger] list[j]).0@ == name,
    decreases list.len(),
{
    if list.len() > 0 {
        let others = list.drop_last();
        let last = list.len() - 1;
        registered_names(others, name);
        if registered(list).contains_key(name) && list[last].0@ != name {
            let j = choose|j: int| 0 <= j < others.len() && (#[trigger] others[j]).0@ == name;
            assert(list[j].0@ == name);
        }
        if exists|j: int| 0 <= j < list.len() && (#[trigger] list[j]).0@ == name {
            let j = choose|j: int| 0 <= j < list.len() && (#[trigger] list[j]).0@ == name;
            if j < last {
                assert(others[j].0@ == name);
            }
        }
    }
}

proof fn last_registered_counts<R>(list: Seq<(String, R)>, name: Seq<char>, i: int)
    requires
        0 <= i < list.len(),
        list[i].0@ == name,
        forall|j: int| i < j < list.len() ==> (#[trigger] list[j]).0@ != name,
    ensures
        registered(list).contains_key(name),
        registered(list)[name] == list[i].1,
    decreases list.len(),
{
    let others = list.drop_last();
    if i < list.len() - 1 {
        assert(list[list.len() - 1].0@ != name);
        assert forall|j: int| i < j < others.len() implies (#[trigger] others[j]).0@ != name by {
            assert(list[j].0@ != name);
        }
        last_registered_counts(others, name, i);
    }
}

/// The shell has one builtin command for each name that occurs among the default and the extra
/// ones, and no other: the one that is given last under that name, where the extra ones come
/// after the default ones.
pub proof fn builtins_are_those_given<F, R>(
    options: Options<F, R>,
    args: CommandLineArgs,
    cli_args: Seq<String>,
    extra_builtins: Seq<(String, R)>,
    surroundings: Surroundings<F, R>,
    b: int,
    c: int,
    i: int,
)
    requires
        options_for(options, args, cli_args, extra_builtins, surroundings),
    ensures
        ({
            let given = surroundings.default_builtins@ + extra_builtins;
            let builtins = options.shell.builtins@;
            &&& 0 <= b < c < builtins.len() ==> builtins[b].0@ != builtins[c].0@
            &&& 0 <= b < builtins.len() ==> exists|j: int|
                0 <= j < given.len() && (#[trigger] given[j]).0@ == builtins[b].0@
            &&& 0 <= i < given.len() ==> exists|j: int|
                0 <= j < builtins.len() && (#[trigger] builtins[j]).0@ == given[i].0@
            &&& 0 <= b < builtins.len() && 0 <= i < given.len() && given[i].0@ == builtins[b].0@ && (
            forall|j: int| i < j < given.len() ==> (#[trigger] given[j]).0@ != given[i].0@)
                ==> builtins[b].1 == given[i].1
        }),
{
    let given = surroundings.default_builtins@ + extra_builtins;
    let builtins = options.shell.builtins@;
    if 0 <= b < builtins.len() {
        let name = builtins[b].0@;
        registered_names(builtins, name);
        registered_names(given, name);
        assert forall|j: int| b < j < builtins.len() implies (#[trigger] builtins[j]).0@ != name by {
            assert(builtins[b].0@ != builtins[j].0@);
        }
        last_registered_counts(builtins, name, b);
        if 0 <= i < given.len() && given[i].0@ == name && (forall|j: int|
            i < j < given.len() ==> (#[trigger] given[j]).0@ != given[i].0@) {
            last_registered_counts(given, name, i);
        }
    }
    if 0 <= i < given.len() {
        let name = given[i].0@;
        registered_names(given, name);
        registered_names(builtins, name);
    }
}

} // verus!
