//! The options that the shell is created with.

use crate::args::CommandLineArgs;
use crate::embedded::run::reads_stdin;
use crate::text::{has_prefix, starts_with};
use std::collections::HashMap;
use vstd::prelude::*;

verus! {

/// A set of builtin commands.
#[derive(Clone, Copy, Debug, PartialEq, Eq, Structural)]
pub enum BuiltinSet {
    /// Those of `sh`.
    ShMode,
    /// Those of `bash`.
    BashMode,
}

/// How errors are formatted.
#[derive(Clone, Copy, Debug, PartialEq, Eq, Structural)]
pub struct Formatter {
    /// Whether color is used.
    pub use_color: bool,
}

/// The options of the shell itself, where `F` is an open file and `R` a builtin command.
#[derive(Debug)]
pub struct CreateOptions<F, R> {
    /// The `set -o` options to switch off.
    pub disabled_options: Vec<String>,
    /// The `shopt` options to switch off.
    pub disabled_shopt_options: Vec<String>,
    /// Whether output redirection must not overwrite regular files.
    pub disallow_overwriting_regular_files_via_output_redirection: bool,
    /// The `set -o` options to switch on.
    pub enabled_options: Vec<String>,
    /// The `shopt` options to switch on.
    pub enabled_shopt_options: Vec<String>,
    /// Whether commands are only read, not executed.
    pub do_not_execute_commands: bool,
    /// Whether to exit after one command.
    pub exit_after_one_command: bool,
    /// Whether to be a login shell.
    pub login: bool,
    /// Whether to be interactive.
    pub interactive: bool,
    /// Whether a command was given on the command line.
    pub command_string_mode: bool,
    /// Whether line editing is off.
    pub no_editing: bool,
    /// Whether profile files are skipped.
    pub no_profile: bool,
    /// Whether the rc file is skipped.
    pub no_rc: bool,
    /// The rc file, where it is not the usual one.
    pub rc_file: Option<String>,
    /// Whether the environment is not inherited.
    pub do_not_inherit_env: bool,
    /// The open files, by descriptor.
    pub fds: Option<HashMap<i32, F>>,
    /// Whether to comply strictly with the POSIX standard.
    pub posix: bool,
    /// Whether commands and their arguments are printed as they are executed.
    pub print_commands_and_arguments: bool,
    /// Whether commands are read from standard input.
    pub read_commands_from_stdin: bool,
    /// The shell's name.
    pub shell_name: Option<String>,
    /// The product's name for users.
    pub shell_product_display_str: Option<String>,
    /// Whether to behave as `sh`.
    pub sh_mode: bool,
    /// Whether the use of an unset variable is an error.
    pub treat_unset_variables_as_error: bool,
    /// Whether input is printed as it is read.
    pub verbose: bool,
    /// How deeply functions may call each other, where that is limited.
    pub max_function_call_depth: Option<usize>,
    /// Whether the shell has key bindings of its own.
    pub key_bindings: bool,
    /// How errors are formatted.
    pub error_formatter: Option<Formatter>,
    /// The shell's version.
    pub shell_version: Option<String>,
    /// The builtin commands, each under its name.
    pub builtins: Vec<(String, R)>,
}

/// The options of the shell and of its user interface.
#[derive(Debug)]
pub struct Options<F, R> {
    /// The options of the shell itself.
    pub shell: CreateOptions<F, R>,
    /// Whether bracketed paste is off.
    pub disable_bracketed_paste: bool,
    /// Whether colored output is off.
    pub disable_color: bool,
    /// Whether input is not highlighted.
    pub disable_highlighting: bool,
}

/// What the options depend on besides the command line.
#[derive(Debug)]
pub struct Surroundings<F, R> {
    /// Whether the shell is interactive, by its command line and its terminals.
    pub interactive: bool,
    /// For each descriptor to inherit, the file that is open under it, if any. A descriptor for
    /// which nothing is given here is not open.
    pub inherited_files: Vec<Option<F>>,
    /// The builtin commands of the set that [`builtin_set`] gives, each under its name.
    pub default_builtins: Vec<(String, R)>,
    /// The product's name for users.
    pub product_display_str: String,
    /// The shell's version.
    pub version: String,
}

/// The builtin commands of `list`, by name. Of two commands of one name the later counts.
pub open spec fn registered<R>(list: Seq<(String, R)>) -> Map<Seq<char>, R>
    decreases list.len(),
{
    if list.len() == 0 {
        Map::empty()
    } else {
        registered(list.drop_last()).insert(list.last().0@, list.last().1)
    }
}

/// Whether no name occurs twice in `list`.
pub open spec fn names_are_distinct<R>(list: Seq<(String, R)>) -> bool {
    forall|i: int, j: int|
        0 <= i < j < list.len() ==> (#[trigger] list[i]).0@ != (#[trigger] list[j]).0@
}

proof fn replacing_registers<R>(list: Seq<(String, R)>, i: int, entry: (String, R))
    requires
        0 <= i < list.len(),
        list[i].0@ == entry.0@,
        forall|j: int| i < j < list.len() ==> (#[trigger] list[j]).0@ != entry.0@,
    ensures
        registered(list.update(i, entry)) == registered(list).insert(entry.0@, entry.1),
    decreases list.len(),
{
    let updated = list.update(i, entry);
    if i == list.len() - 1 {
        assert(updated.drop_last() =~= list.drop_last());
    } else {
        replacing_registers(list.drop_last(), i, entry);
        assert(updated.drop_last() =~= list.drop_last().update(i, entry));
        assert(updated.last() == list.last());
    }
    assert(registered(updated) =~= registered(list).insert(entry.0@, entry.1));
}

/// Puts `entry` into `list`, in the place of the command of that name, if there is one.
fn register<R>(list: &mut Vec<(String, R)>, entry: (String, R))
    ensures
        registered(final(list)@) == registered(old(list)@).insert(entry.0@, entry.1),
        names_are_distinct(old(list)@) ==> names_are_distinct(final(list)@),
{
    let mut i: usize = list.len();
    while i > 0
        invariant
            i <= list@.len(),
            list@ == old(list)@,
            forall|j: int| i <= j < list@.len() ==> (#[trigger] list@[j]).0@ != entry.0@,
        decreases i,
    {
        i -= 1;
        if list[i].0 == entry.0 {
            proof {
                replacing_registers(list@, i as int, entry);
            }
            list.set(i, entry);
            return ;
        }
    }
    list.push(entry);
    assert(list@.drop_last() =~= old(list)@);
}

/// The builtin commands of `defaults`, extended by those of `extra`, which have precedence.
pub fn extend_builtins<R>(defaults: Vec<(String, R)>, extra: Vec<(String, R)>) -> (builtins: Vec<
    (String, R),
>)
    ensures
        registered(builtins@) == registered(defaults@ + extra@),
        names_are_distinct(builtins@),
{
    let ghost all = defaults@ + extra@;
    let mut rest: Vec<(String, R)> = defaults;
    let mut extra = extra;
    rest.append(&mut extra);
    let mut builtins: Vec<(String, R)> = Vec::new();
    assert(all.take(0) =~= Seq::empty());
    for entry in iter: rest
        invariant
            iter.seq() == all,
            registered(builtins@) == registered(all.take(iter.index() as int)),
            names_are_distinct(builtins@),
    {
        proof {
            let k = iter.index() as int;
            assert(all.take(k + 1).drop_last() =~= all.take(k));
        }
        register(&mut builtins, entry);
    }
    assert(all.take(all.len() as int) =~= all);
    builtins
}

/// The open files under the descriptors `fds`, where `files` says for each descriptor which file
/// is open under it. Of two files under one descriptor the later counts.
pub open spec fn open_files<F>(fds: Seq<i32>, files: Seq<Option<F>>) -> Map<i32, F>
    decreases fds.len(),
{
    if fds.len() == 0 {
        Map::empty()
    } else {
        let others = open_files(fds.drop_last(), files);
        let i = fds.len() - 1;
        if i < files.len() && files[i] is Some {
            others.insert(fds[i], files[i]->0)
        } else {
            others
        }
    }
}

/// Collects the open files under the descriptors `fds`.
pub fn collect_open_files<F>(fds: &Vec<i32>, files: Vec<Option<F>>) -> (open: HashMap<i32, F>)
    ensures
        open@ == open_files(fds@, files@),
{
    broadcast use vstd::std_specs::hash::group_hash_axioms;

    let ghost given = files@;
    let mut files = files;
    let mut open: HashMap<i32, F> = HashMap::new();
    let mut i: usize = 0;
    while i < fds.len()
        invariant
            i <= fds.len(),
            files@.len() == given.len(),
            forall|j: int| i <= j < given.len() ==> files@[j] == given[j],
            open@ == open_files(fds@.take(i as int), given),
        decreases fds.len() - i,
    {
        assert(fds@.take(i + 1).drop_last() =~= fds@.take(i as int));
        if i < files.len() {
            if let Some(file) = files[i].take() {
                open.insert(fds[i], file);
            }
        }
        i += 1;
    }
    assert(fds@.take(i as int) =~= fds@);
    open
}

/// The set of builtin commands that `args` ask for.
pub fn builtin_set(args: &CommandLineArgs) -> (set: BuiltinSet)
    ensures
        set == (if args.sh_mode {
            BuiltinSet::ShMode
        } else {
            BuiltinSet::BashMode
        }),
{
    if args.sh_mode {
        BuiltinSet::ShMode
    } else {
        BuiltinSet::BashMode
    }
}

/// How errors are formatted, by `args`.
pub fn new_error_formatter(args: &CommandLineArgs) -> (formatter: Formatter)
    ensures
        formatter == (Formatter { use_color: !args.disable_color }),
{
    Formatter { use_color: !args.disable_color }
}

/// The shell's name: `sh` where it behaves as such, else the name that it was called by.
pub open spec fn called_as(args: CommandLineArgs, cli_args: Seq<String>) -> Option<Seq<char>> {
    if args.sh_mode {
        Some("sh"@)
    } else if cli_args.len() > 0 {
        Some(cli_args[0]@)
    } else {
        None
    }
}

/// The view of an optional text.
pub open spec fn optional_text(text: Option<String>) -> Option<Seq<char>> {
    match text {
        Some(text) => Some(text@),
        None => None,
    }
}

/// Whether the shell is a login shell: where that was asked for, or where its name starts with a
/// hyphen.
pub open spec fn is_login(args: CommandLineArgs, cli_args: Seq<String>) -> bool {
    args.login || (called_as(args, cli_args) matches Some(name) && has_prefix(name, "-"@))
}

/// Whether `shell` takes over unchanged what `args` say.
pub open spec fn follows<F, R>(shell: CreateOptions<F, R>, args: CommandLineArgs) -> bool {
    &&& shell.disabled_options@ == args.disabled_options@
    &&& shell.disabled_shopt_options@ == args.disabled_shopt_options@
    &&& shell.enabled_options@ == args.enabled_options@
    &&& shell.enabled_shopt_options@ == args.enabled_shopt_options@
    &&& shell.disallow_overwriting_regular_files_via_output_redirection
        == args.disallow_overwriting_regular_files_via_output_redirection
    &&& shell.do_not_execute_commands == args.do_not_execute_commands
    &&& shell.exit_after_one_command == args.exit_after_one_command
    &&& shell.no_editing == args.no_editing
    &&& shell.no_profile == args.no_profile
    &&& shell.no_rc == args.no_rc
    &&& shell.rc_file == args.rc_file
    &&& shell.do_not_inherit_env == args.do_not_inherit_env
    &&& shell.print_commands_and_arguments == args.print_commands_and_arguments
    &&& shell.sh_mode == args.sh_mode
    &&& shell.treat_unset_variables_as_error == args.treat_unset_variables_as_error
    &&& shell.verbose == args.verbose
}

/// Whether `options` are those of a shell that is called with `cli_args`, which `args` are parsed
/// from, in these surroundings.
pub open spec fn options_for<F, R>(
    options: Options<F, R>,
    args: CommandLineArgs,
    cli_args: Seq<String>,
    extra_builtins: Seq<(String, R)>,
    surroundings: Surroundings<F, R>,
) -> bool {
    let shell = options.shell;
    &&& follows(shell, args)
    &&& optional_text(shell.shell_name) == called_as(args, cli_args)
    &&& shell.login == is_login(args, cli_args)
    &&& shell.interactive == surroundings.interactive
    &&& shell.command_string_mode == (args.command is Some)
    &&& shell.read_commands_from_stdin == reads_stdin(args)
    &&& shell.posix == (args.posix || args.sh_mode)
    &&& shell.fds matches Some(fds) && fds@ == open_files(
        args.inherited_fds@,
        surroundings.inherited_files@,
    )
    &&& names_are_distinct(shell.builtins@)
    &&& registered(shell.builtins@) == registered(surroundings.default_builtins@ + extra_builtins)
    &&& shell.error_formatter == Some(Formatter { use_color: !args.disable_color })
    &&& shell.shell_product_display_str == Some(surroundings.product_display_str)
    &&& shell.shell_version == Some(surroundings.version)
    &&& shell.max_function_call_depth is None
    &&& !shell.key_bindings
    &&& options.disable_bracketed_paste == args.disable_bracketed_paste
    &&& options.disable_color == args.disable_color
    &&& options.disable_highlighting == !args.enable_highlighting
}

/// A copy of `texts`.
fn copied(texts: &Vec<String>) -> (copy: Vec<String>)
    ensures
        copy@ == texts@,
{
    let copy: Vec<String> = texts.clone();
    assert(copy@ =~= texts@);
    copy
}

/// The shell's name.
fn argv0(args: &CommandLineArgs, cli_args: &Vec<String>) -> (name: Option<String>)
    ensures
        optional_text(name) == called_as(*args, cli_args@),
{
    if args.sh_mode {
        Some("sh".to_owned())
    } else if !cli_args.is_empty() {
        Some(cli_args[0].clone())
    } else {
        None
    }
}

/// Whether the shell, called `name`, is a login shell.
fn login_shell(args: &CommandLineArgs, name: &Option<String>) -> (login: bool)
    ensures
        login == (args.login || (optional_text(*name) matches Some(name) && has_prefix(name, "-"@))),
{
    args.login || match name {
        Some(name) => starts_with(name.as_str(), "-"),
        None => false,
    }
}

/// Whether commands are read from standard input: if that was asked for, or if no command was
/// specified, neither as such nor as a script.
fn commands_from_stdin(args: &CommandLineArgs) -> (from_stdin: bool)
    ensures
        from_stdin == reads_stdin(*args),
{
    (args.read_commands_from_stdin && args.command.is_none()) || (args.script_args.is_empty()
        && args.command.is_none())
}

/// The options of a shell that is called with `cli_args`, which `args` are parsed from.
pub fn instantiate_shell<F, R>(
    args: &CommandLineArgs,
    cli_args: &Vec<String>,
    extra_builtins: Vec<(String, R)>,
    surroundings: Surroundings<F, R>,
) -> (options: Options<F, R>)
    ensures
        options_for(options, *args, cli_args@, extra_builtins@, surroundings),
{
    let shell_name: Option<String> = argv0(args, cli_args);
    let login: bool = login_shell(args, &shell_name);
    let builtins: Vec<(String, R)> = extend_builtins(surroundings.default_builtins, extra_builtins);
    let fds: HashMap<i32, F> = collect_open_files(&args.inherited_fds, surroundings.inherited_files);

    Options {
        shell: CreateOptions {
            disabled_options: copied(&args.disabled_options),
            disabled_shopt_options: copied(&args.disabled_shopt_options),
            disallow_overwriting_regular_files_via_output_redirection:
                args.disallow_overwriting_regular_files_via_output_redirection,
            enabled_options: copied(&args.enabled_options),
            enabled_shopt_options: copied(&args.enabled_shopt_options),
            do_not_execute_commands: args.do_not_execute_commands,
            exit_after_one_command: args.exit_after_one_command,
            login,
            interactive: surroundings.interactive,
            command_string_mode: args.command.is_some(),
            no_editing: args.no_editing,
            no_profile: args.no_profile,
            no_rc: args.no_rc,
            rc_file: args.rc_file.clone(),
            do_not_inherit_env: args.do_not_inherit_env,
            fds: Some(fds),
            posix: args.posix || args.sh_mode,
            print_commands_and_arguments: args.print_commands_and_arguments,
            read_commands_from_stdin: commands_from_stdin(args),
            shell_name,
            shell_product_display_str: Some(surroundings.product_display_str),
            sh_mode: args.sh_mode,
            treat_unset_variables_as_error: args.treat_unset_variables_as_error,
            verbose: args.verbose,
            max_function_call_depth: None,
            key_bindings: false,
            error_formatter: Some(new_error_formatter(args)),
            shell_version: Some(surroundings.version),
            builtins,
        },
        disable_bracketed_paste: args.disable_bracketed_paste,
        disable_color: args.disable_color,
        disable_highlighting: !args.enable_highlighting,
    }
}

} // verus!
