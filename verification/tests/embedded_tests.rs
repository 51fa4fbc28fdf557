use brush_embedded::args::{CommandLineArgs, InputBackend};
use brush_embedded::embedded::launch::{
    exit_code, get_default_input_backend, parse_error_exit_code, rewrite_args, run_async,
    try_reset_terminal_to_defaults,
};
use brush_embedded::embedded::options::{
    builtin_set, collect_open_files, extend_builtins, instantiate_shell, new_error_formatter,
    BuiltinSet, Options, Surroundings,
};
use brush_embedded::embedded::run::{
    finish_run, run_impl, run_in_shell, Invocation, Report, RunError, ShellParameters,
};
use brush_embedded::embedded::run_custom;
use brush_embedded::embedded::session::{end_run, Created, Launch, Parsing, Starting};
use clap::error::ErrorKind;

fn strings(texts: &[&str]) -> Vec<String> {
    texts.iter().map(|text| text.to_string()).collect()
}

fn surroundings() -> Surroundings<u8, u8> {
    Surroundings {
        interactive: true,
        inherited_files: vec![Some(30), None, Some(31)],
        default_builtins: vec![("cd".to_string(), 1), ("echo".to_string(), 2)],
        product_display_str: "brush 1.2".to_string(),
        version: "1.2".to_string(),
    }
}

fn options(args: &CommandLineArgs, cli_args: &[&str]) -> Options<u8, u8> {
    let extra = vec![("echo".to_string(), 9), ("host".to_string(), 3)];
    instantiate_shell(args, &strings(cli_args), extra, surroundings())
}

fn fresh_shell() -> ShellParameters {
    ShellParameters {
        shell_name: Some("brush".to_string()),
        positional_parameters: strings(&["before"]),
    }
}

#[test]
fn plus_options_are_rewritten() {
    let given = strings(&["brush", "+O", "extglob", "+Oextglob", "-O", "+x", "a+O", ""]);
    let expected = strings(&["brush", "--+O", "extglob", "--+Oextglob", "-O", "+x", "a+O", ""]);
    assert_eq!(rewrite_args(&given), expected);
    assert_eq!(rewrite_args(&expected), expected);
    assert_eq!(run_custom(&given).cli_args, expected);
    assert_eq!(rewrite_args(&vec![]), strings(&[]));
}

#[test]
fn help_and_version_are_no_failures() {
    assert_eq!(parse_error_exit_code(ErrorKind::DisplayHelp), 0);
    assert_eq!(parse_error_exit_code(ErrorKind::DisplayVersion), 0);
    assert_eq!(parse_error_exit_code(ErrorKind::UnknownArgument), 1);
    assert_eq!(
        parse_error_exit_code(ErrorKind::DisplayHelpOnMissingArgumentOrSubcommand),
        1
    );
    assert_eq!(parse_error_exit_code(ErrorKind::Io), 1);
}

#[test]
fn arguments_behind_the_dashes_are_script_arguments() {
    let parsed = CommandLineArgs {
        script_args: strings(&["a"]),
        verbose: true,
        enabled_debug_events: strings(&["parse", "expand"]),
        disabled_events: strings(&["unimplemented"]),
        ..Default::default()
    };
    let args =
        CommandLineArgs::try_parse_from_embedded::<u8>(Ok((parsed, Some(strings(&["-x", "b"])))))
            .unwrap();
    assert_eq!(args.script_args, strings(&["a", "-x", "b"]));
    assert!(args.verbose);
    assert_eq!(args.enabled_debug_events, strings(&["parse", "expand"]));
    assert_eq!(args.disabled_events, strings(&["unimplemented"]));

    let parsed = CommandLineArgs { script_args: strings(&["a"]), ..Default::default() };
    let args = CommandLineArgs::try_parse_from_embedded::<u8>(Ok((parsed, None))).unwrap();
    assert_eq!(args.script_args, strings(&["a"]));

    assert_eq!(CommandLineArgs::try_parse_from_embedded::<u8>(Err(5)).unwrap_err(), 5);
}

#[test]
fn parsing_leads_to_a_run_or_an_exit() {
    let parsing = Parsing { cli_args: strings(&["brush", "--+O"]) };
    let parsed = CommandLineArgs {
        script_args: strings(&["s"]),
        enabled_debug_events: strings(&["jobs"]),
        disabled_events: strings(&["input"]),
        ..Default::default()
    };
    match parsing.parsed(Ok((parsed, Some(strings(&["t"]))))) {
        Launch::Run(Starting { cli_args, args }) => {
            assert_eq!(cli_args, strings(&["brush", "--+O"]));
            assert_eq!(args.script_args, strings(&["s", "t"]));
            assert_eq!(args.enabled_debug_events, strings(&["jobs"]));
            assert_eq!(args.disabled_events, strings(&["input"]));
        }
        Launch::Exit(_) => panic!("a run was expected"),
    }
    let parsing = Parsing { cli_args: vec![] };
    assert!(matches!(parsing.parsed(Err(ErrorKind::DisplayVersion)), Launch::Exit(0)));
    let parsing = Parsing { cli_args: vec![] };
    assert!(matches!(parsing.parsed(Err(ErrorKind::InvalidValue)), Launch::Exit(1)));
}

#[test]
fn exit_codes_of_runs() {
    assert_eq!(exit_code::<u8>(&Ok(0)), 0);
    assert_eq!(exit_code::<u8>(&Ok(255)), 255);
    assert_eq!(exit_code::<u8>(&Err(7)), 1);
    let (code, report) = Starting::not_created::<u8, _>("no factory");
    assert_eq!(code, 1);
    assert!(matches!(report, Report::Log("no factory")));
}

#[test]
fn ends_of_runs() {
    let (code, report) = end_run::<u8, u8>(Ok(()), 42);
    assert_eq!(code, 42);
    assert!(matches!(report, Report::Nothing));
    let (code, report) = end_run::<u8, u8>(Err(RunError::Shell(3)), 42);
    assert_eq!(code, 1);
    assert!(matches!(report, Report::Display(3)));
    let (code, report) = end_run::<u8, u8>(Err(RunError::Other(4)), 42);
    assert_eq!(code, 1);
    assert!(matches!(report, Report::Log(4)));
}

#[test]
fn results_of_runs() {
    assert_eq!(finish_run::<u8>(Ok(()), 7), Ok(7));
    assert_eq!(finish_run::<u8>(Err(2), 7), Err(2));
    assert!(matches!(run_impl::<u8, u8>(Ok(3)), (3, Report::Nothing)));
    assert!(matches!(run_impl::<u8, u8>(Err(RunError::Shell(8))), (1, Report::Display(8))));
    assert!(matches!(run_impl::<u8, u8>(Err(RunError::Other(8))), (1, Report::Log(8))));
}

#[test]
fn backends() {
    assert_eq!(get_default_input_backend(true, true), InputBackend::Reedline);
    assert_eq!(get_default_input_backend(true, false), InputBackend::Minimal);
    assert_eq!(get_default_input_backend(false, true), InputBackend::Minimal);
    assert_eq!(get_default_input_backend(false, false), InputBackend::Minimal);
    let none = CommandLineArgs::default();
    assert_eq!(run_async(&none, InputBackend::Reedline), InputBackend::Reedline);
    let basic = CommandLineArgs { input_backend: Some(InputBackend::Basic), ..Default::default() };
    assert_eq!(run_async(&basic, InputBackend::Reedline), InputBackend::Basic);
}

#[test]
fn first_reset_error_counts() {
    assert_eq!(try_reset_terminal_to_defaults::<u8>(Ok(()), Ok(())), Ok(()));
    assert_eq!(try_reset_terminal_to_defaults::<u8>(Err(1), Ok(())), Err(1));
    assert_eq!(try_reset_terminal_to_defaults::<u8>(Ok(()), Err(2)), Err(2));
    assert_eq!(try_reset_terminal_to_defaults::<u8>(Err(1), Err(2)), Err(1));
}

#[test]
fn command_is_run_with_its_parameters() {
    let mut shell = fresh_shell();
    let args = CommandLineArgs {
        command: Some("echo $1".to_string()),
        read_commands_from_stdin: true,
        script_args: strings(&["name", "one", "two"]),
        ..Default::default()
    };
    match run_in_shell(args, &mut shell) {
        Invocation::RunString(command) => assert_eq!(command, "echo $1"),
        other => panic!("unexpected {:?}", other),
    }
    assert_eq!(shell.shell_name, Some("name".to_string()));
    assert_eq!(shell.positional_parameters, strings(&["one", "two"]));
}

#[test]
fn command_alone_clears_the_parameters() {
    let mut shell = fresh_shell();
    let args = CommandLineArgs { command: Some("true".to_string()), ..Default::default() };
    assert!(matches!(run_in_shell(args, &mut shell), Invocation::RunString(_)));
    assert_eq!(shell.shell_name, Some("brush".to_string()));
    assert_eq!(shell.positional_parameters, strings(&[]));
}

#[test]
fn stdin_comes_before_a_script() {
    let mut shell = fresh_shell();
    let args = CommandLineArgs {
        read_commands_from_stdin: true,
        script_args: strings(&["script", "one"]),
        ..Default::default()
    };
    assert!(matches!(run_in_shell(args, &mut shell), Invocation::RunInteractively));
    assert_eq!(shell.shell_name, Some("brush".to_string()));
    assert_eq!(shell.positional_parameters, strings(&["script", "one"]));

    let mut shell = fresh_shell();
    let args = CommandLineArgs { read_commands_from_stdin: true, ..Default::default() };
    assert!(matches!(run_in_shell(args, &mut shell), Invocation::RunInteractively));
    assert_eq!(shell.positional_parameters, strings(&["before"]));
}

#[test]
fn script_is_run_with_its_arguments() {
    let mut shell = fresh_shell();
    let args = CommandLineArgs { script_args: strings(&["script", "one", "two"]), ..Default::default() };
    match (Created { args }).invoke(&mut shell) {
        Invocation::RunScript { path, args } => {
            assert_eq!(path, "script");
            assert_eq!(args, strings(&["one", "two"]));
        }
        other => panic!("unexpected {:?}", other),
    }
    assert_eq!(shell.shell_name, Some("brush".to_string()));
    assert_eq!(shell.positional_parameters, strings(&["before"]));
}

#[test]
fn nothing_to_run_is_interactive() {
    let mut shell = fresh_shell();
    let invocation = run_in_shell(CommandLineArgs::default(), &mut shell);
    assert!(matches!(invocation, Invocation::RunInteractively));
    assert_eq!(shell.positional_parameters, strings(&["before"]));
}

#[test]
fn extra_builtins_replace_default_ones() {
    let defaults = vec![("cd".to_string(), 1), ("echo".to_string(), 2)];
    let extra = vec![("echo".to_string(), 3), ("host".to_string(), 4), ("echo".to_string(), 5)];
    let mut builtins = extend_builtins(defaults, extra);
    builtins.sort();
    assert_eq!(
        builtins,
        vec![("cd".to_string(), 1), ("echo".to_string(), 5), ("host".to_string(), 4)]
    );
}

#[test]
fn only_open_descriptors_are_collected() {
    let open = collect_open_files(&vec![3, 4, 3, 5, 6], vec![Some('a'), None, Some('b'), Some('c')]);
    assert_eq!(open.len(), 2);
    assert_eq!(open.get(&3), Some(&'b'));
    assert_eq!(open.get(&5), Some(&'c'));
    let open = collect_open_files(&vec![3, 3], vec![Some('a'), None]);
    assert_eq!(open.get(&3), Some(&'a'));
    assert!(collect_open_files::<char>(&vec![], vec![Some('a')]).is_empty());
}

#[test]
fn options_take_over_the_command_line() {
    let args = CommandLineArgs {
        inherited_fds: vec![3, 4, 5],
        enabled_options: strings(&["errexit"]),
        disabled_options: strings(&["nounset"]),
        enabled_shopt_options: strings(&["extglob"]),
        disabled_shopt_options: strings(&["dotglob"]),
        disallow_overwriting_regular_files_via_output_redirection: true,
        do_not_execute_commands: true,
        rc_file: Some("rc".to_string()),
        no_rc: true,
        disable_color: true,
        enable_highlighting: true,
        ..Default::default()
    };
    let options = options(&args, &["brush"]);
    let shell = options.shell;
    assert_eq!(shell.enabled_options, strings(&["errexit"]));
    assert_eq!(shell.disabled_options, strings(&["nounset"]));
    assert_eq!(shell.enabled_shopt_options, strings(&["extglob"]));
    assert_eq!(shell.disabled_shopt_options, strings(&["dotglob"]));
    assert!(shell.disallow_overwriting_regular_files_via_output_redirection);
    assert!(shell.do_not_execute_commands);
    assert!(!shell.exit_after_one_command);
    assert_eq!(shell.rc_file, Some("rc".to_string()));
    assert!(shell.no_rc);
    assert!(!shell.no_profile);
    assert!(shell.interactive);
    let fds = shell.fds.unwrap();
    assert_eq!(fds.len(), 2);
    assert_eq!(fds.get(&3), Some(&30));
    assert_eq!(fds.get(&5), Some(&31));
    assert_eq!(shell.shell_product_display_str, Some("brush 1.2".to_string()));
    assert_eq!(shell.shell_version, Some("1.2".to_string()));
    assert_eq!(shell.max_function_call_depth, None);
    assert!(!shell.key_bindings);
    assert!(!shell.error_formatter.unwrap().use_color);
    assert!(!new_error_formatter(&args).use_color);
    let mut builtins = shell.builtins;
    builtins.sort();
    assert_eq!(
        builtins,
        vec![("cd".to_string(), 1), ("echo".to_string(), 9), ("host".to_string(), 3)]
    );
    assert!(options.disable_color);
    assert!(!options.disable_highlighting);
    assert!(!options.disable_bracketed_paste);
}

#[test]
fn shells_are_named_and_log_in() {
    let none = CommandLineArgs::default();
    let shell = options(&none, &["-brush", "x"]).shell;
    assert_eq!(shell.shell_name, Some("-brush".to_string()));
    assert!(shell.login);
    let shell = options(&none, &["brush"]).shell;
    assert!(!shell.login);
    let shell = options(&none, &[]).shell;
    assert_eq!(shell.shell_name, None);
    assert!(!shell.login);
    let asked = CommandLineArgs { login: true, ..Default::default() };
    assert!(options(&asked, &["brush"]).shell.login);
}

#[test]
fn sh_mode_is_posix() {
    let args = CommandLineArgs { sh_mode: true, ..Default::default() };
    let shell = options(&args, &["-brush"]).shell;
    assert_eq!(shell.shell_name, Some("sh".to_string()));
    assert!(shell.posix);
    assert!(shell.sh_mode);
    assert!(!shell.login);
    assert_eq!(builtin_set(&args), BuiltinSet::ShMode);
    let none = CommandLineArgs::default();
    assert!(!options(&none, &["brush"]).shell.posix);
    assert_eq!(builtin_set(&none), BuiltinSet::BashMode);
    let posix = CommandLineArgs { posix: true, ..Default::default() };
    assert!(options(&posix, &["brush"]).shell.posix);
}

#[test]
fn options_say_where_commands_come_from() {
    let none = CommandLineArgs::default();
    assert!(options(&none, &["brush"]).shell.read_commands_from_stdin);
    let script = CommandLineArgs { script_args: strings(&["s"]), ..Default::default() };
    assert!(!options(&script, &["brush"]).shell.read_commands_from_stdin);
    let both = CommandLineArgs {
        script_args: strings(&["s"]),
        read_commands_from_stdin: true,
        ..Default::default()
    };
    assert!(options(&both, &["brush"]).shell.read_commands_from_stdin);
    let command = CommandLineArgs {
        command: Some("c".to_string()),
        read_commands_from_stdin: true,
        ..Default::default()
    };
    let shell = options(&command, &["brush"]).shell;
    assert!(!shell.read_commands_from_stdin);
    assert!(shell.command_string_mode);
}

#[test]
fn starting_gives_backend_and_options() {
    let starting = Starting {
        cli_args: strings(&["brush"]),
        args: CommandLineArgs { verbose: true, ..Default::default() },
    };
    let creation = starting.create(true, false, vec![], surroundings());
    assert_eq!(creation.backend, InputBackend::Minimal);
    assert!(creation.options.shell.verbose);
    assert_eq!(creation.options.shell.shell_name, Some("brush".to_string()));
    assert!(creation.created.args.verbose);
}
