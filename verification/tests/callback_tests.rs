use brush_embedded::error::{Error, Kind};
use brush_embedded::sys::host::reply::Document;
use brush_embedded::sys::host::scripts::{GET_SIZE, RAW_OFF, RAW_ON};
use brush_embedded::sys::wasm::terminal::{
    _continue, eval_blocking, get_foreground_pid, get_parent_process_id, get_process_group_id,
    move_self_to_foreground, move_to_foreground, Config, HostState, Progress, WasmHostFuture,
};
use brush_embedded::sys::wasm::PlatformError;
use brush_embedded::terminal::Settings;

const NO_CHANGE: Settings = Settings {
    echo_input: None,
    line_input: None,
    interrupt_signals: None,
    output_nl_as_nlcr: None,
};

fn io_message<T>(result: Result<T, Error>) -> String {
    match result {
        Err(Error { kind: Kind::IoError(message) }) => message,
        _ => panic!("an input or output error was expected"),
    }
}

fn ask(host: &mut HostState<u8>) -> WasmHostFuture {
    WasmHostFuture::new(host, "1".to_string(), true).0
}

fn reply(host: &mut HostState<u8>, cookie: u32, text: &str) -> Option<u8> {
    _continue(host, cookie, Some(text.to_string())).wake
}

fn fetch(host: &mut HostState<u8>, future: &WasmHostFuture, waker: u8) -> Option<String> {
    match future.poll(host, waker) {
        Progress::Ready(evaluated) => Some(evaluated.unwrap()),
        Progress::Pending => None,
    }
}

fn script_of(config: &Config) -> String {
    let mut host: HostState<u8> = HostState::new();
    config.apply_request(&mut host, true).1.script
}

fn serde_message(text: &str) -> String {
    serde_json::from_str::<serde_json::Value>(text).unwrap_err().to_string()
}

#[test]
fn waiting_task_is_woken_and_gets_the_reply() {
    let mut host = HostState::new();
    let future = ask(&mut host);
    assert_eq!(fetch(&mut host, &future, 7), None);
    assert_eq!(reply(&mut host, future.cookie(), "yes"), Some(7));
    assert_eq!(fetch(&mut host, &future, 8), Some("yes".to_string()));
}

#[test]
fn reply_arrives_among_other_operations() {
    let mut host = HostState::new();
    let future = ask(&mut host);
    assert_eq!(fetch(&mut host, &future, 1), None);
    let other = ask(&mut host);
    assert_eq!(fetch(&mut host, &other, 2), None);
    assert_eq!(reply(&mut host, future.cookie(), "early"), Some(1));
    assert_eq!(fetch(&mut host, &future, 3), Some("early".to_string()));
    assert_eq!(fetch(&mut host, &future, 4), None);
    assert_eq!(reply(&mut host, other.cookie(), "other"), Some(2));
    assert_eq!(reply(&mut host, future.cookie(), "late"), Some(4));
    assert!(_continue(&mut host, future.cookie(), None).wake.is_none());
    assert_eq!(fetch(&mut host, &other, 5), Some("other".to_string()));
    assert_eq!(fetch(&mut host, &future, 6), Some("late".to_string()));
}

#[test]
fn latest_waker_is_woken_once() {
    let mut host = HostState::new();
    let future = ask(&mut host);
    assert_eq!(fetch(&mut host, &future, 1), None);
    assert_eq!(fetch(&mut host, &future, 2), None);
    assert_eq!(reply(&mut host, future.cookie(), "a"), Some(2));
    assert_eq!(reply(&mut host, future.cookie(), "b"), None);
}

#[test]
fn reply_is_handed_out_once() {
    let mut host = HostState::new();
    let future = ask(&mut host);
    assert_eq!(reply(&mut host, future.cookie(), "once"), None);
    assert_eq!(fetch(&mut host, &future, 1), Some("once".to_string()));
    assert_eq!(fetch(&mut host, &future, 1), None);
}

#[test]
fn later_reply_counts() {
    let mut host = HostState::new();
    let future = ask(&mut host);
    reply(&mut host, future.cookie(), "first");
    reply(&mut host, future.cookie(), "second");
    assert_eq!(fetch(&mut host, &future, 1), Some("second".to_string()));
}

#[test]
fn requests_do_not_touch_each_other() {
    let mut host = HostState::new();
    let first = ask(&mut host);
    let second = ask(&mut host);
    assert_eq!(first.cookie(), 1);
    assert_eq!(second.cookie(), 2);
    assert_eq!(fetch(&mut host, &first, 10), None);
    assert_eq!(reply(&mut host, 2, "two"), None);
    assert_eq!(fetch(&mut host, &first, 10), None);
    assert_eq!(reply(&mut host, 1, "one"), Some(10));
    assert_eq!(fetch(&mut host, &second, 11), Some("two".to_string()));
    assert_eq!(fetch(&mut host, &first, 10), Some("one".to_string()));
}

#[test]
fn unreadable_reply_changes_nothing() {
    let mut host: HostState<u8> = HostState::new();
    let future = ask(&mut host);
    assert_eq!(fetch(&mut host, &future, 5), None);
    let continued = _continue(&mut host, future.cookie(), None);
    assert!(!continued.remove_reply);
    assert!(continued.wake.is_none());
    assert_eq!(reply(&mut host, future.cookie(), "late"), Some(5));
}

#[test]
fn unasked_reply_is_dropped() {
    let mut host: HostState<u8> = HostState::new();
    assert_eq!(host.reply_location(1).directory, "/dev/host/eval");
    let continued = _continue(&mut host, 1, Some("early".to_string()));
    assert!(continued.remove_reply);
    assert!(continued.wake.is_none());
    let future = ask(&mut host);
    assert_eq!(future.cookie(), 1);
    assert_eq!(fetch(&mut host, &future, 1), None);
}

#[test]
fn replies_are_kept_once_the_maps_exist() {
    let mut host: HostState<u8> = HostState::new();
    host.init_maps();
    reply(&mut host, 1, "early");
    let future = ask(&mut host);
    assert_eq!(fetch(&mut host, &future, 1), Some("early".to_string()));
}

#[test]
fn replies_are_looked_for_where_the_first_request_went() {
    let mut host: HostState<u8> = HostState::new();
    let (_, first) = WasmHostFuture::new(&mut host, "1".to_string(), false);
    let (second, later) = WasmHostFuture::new(&mut host, "2".to_string(), true);
    assert_eq!(first.directory, "./dev/host/eval");
    assert!(first.create_directory);
    assert_eq!(later.directory, "/dev/host/eval");
    assert!(!later.create_directory);
    let location = host.reply_location(second.cookie());
    assert_eq!(location.directory, "./dev/host/eval");
    assert_eq!(location.file, "2.json");
}

#[test]
fn cookies_are_handed_out_in_order() {
    let mut host: HostState<u8> = HostState::new();
    assert_eq!(host.next_cookie(), 1);
    assert_eq!(host.next_cookie(), 2);
    assert_eq!(ask(&mut host).cookie(), 3);
}

#[test]
fn evaluation_errors_become_io_errors() {
    assert_eq!(eval_blocking(Ok("x".to_string())).unwrap(), "x");
    assert_eq!(io_message(eval_blocking(Err("host is gone"))), "host is gone");
    let config = Config::default();
    assert_eq!(io_message(config.apply_to_term((), Err("host is gone"))), "host is gone");
    assert_eq!(io_message(Config::get_window_size(Err("host is gone"))), "host is gone");
    assert!(!Config::isatty(Err("host is gone")));
}

#[test]
fn applying_reports_the_reply() {
    let config = Config::default();
    assert!(config.apply_to_term((), Ok(r#"{"ok":true}"#.to_string())).is_ok());
    let refused = config.apply_to_term((), Ok(r#"{"ok":false,"err":"no tty"}"#.to_string()));
    assert_eq!(io_message(refused), "no tty");
    let silent = config.apply_to_term((), Ok(r#"{"ok":false}"#.to_string()));
    assert_eq!(io_message(silent), "unknown");
    let quoted = config.apply_to_term((), Ok(r#"{"ok":"true"}"#.to_string()));
    assert_eq!(io_message(quoted), "unknown");
    let list = config.apply_to_term((), Ok("[true]".to_string()));
    assert_eq!(io_message(list), "unknown");
    let twice = config.apply_to_term((), Ok(r#"{"ok":false,"ok":true}"#.to_string()));
    assert!(twice.is_ok());
}

#[test]
fn malformed_replies_are_reported() {
    let config = Config::default();
    let text = r#"{"ok":"#;
    let applied = config.apply_to_term((), Ok(text.to_string()));
    assert_eq!(io_message(applied), format!("parse eval response: {}", serde_message(text)));
    let size = Config::get_window_size(Ok(text.to_string()));
    assert_eq!(io_message(size), format!("parse get-size json: {}", serde_message(text)));
    assert!(!Config::isatty(Ok(text.to_string())));
}

#[test]
fn parsed_replies_are_concluded() {
    assert_eq!(
        io_message(Config::conclude_apply(Err("bad".to_string()))),
        "parse eval response: bad"
    );
    assert_eq!(
        io_message(Config::conclude_size(Err("bad".to_string()))),
        "parse get-size json: bad"
    );
    assert_eq!(
        io_message(Config::conclude_apply(Ok(Document { members: None }))),
        "unknown"
    );
    assert_eq!(
        io_message(Config::conclude_size(Ok(Document { members: None }))),
        "failed to get size"
    );
}

#[test]
fn window_sizes() {
    let size = |text: &str| Config::get_window_size(Ok(text.to_string()));
    assert_eq!(size(r#"{"ok":true,"cols":120,"rows":40}"#).unwrap(), (120, 40));
    assert_eq!(size(r#"{"ok":true}"#).unwrap(), (80, 24));
    assert_eq!(size(r#"{"ok":true,"cols":-1,"rows":40.5}"#).unwrap(), (80, 24));
    assert_eq!(size(r#"{"ok":true,"cols":65616,"rows":24}"#).unwrap(), (80, 24));
    assert_eq!(
        size(r#"{"ok":true,"cols":18446744073709551615,"rows":null}"#).unwrap(),
        (65535, 24)
    );
    assert_eq!(io_message(size(r#"{"ok":false,"cols":120}"#)), "failed to get size");
    assert_eq!(io_message(size("7")), "failed to get size");
    assert!(Config::isatty(Ok(r#"{"ok":true}"#.to_string())));
    assert!(!Config::isatty(Ok(r#"{"ok":false}"#.to_string())));
}

#[test]
fn size_request_asks_for_the_size() {
    let mut host: HostState<u8> = HostState::new();
    let (future, request) = Config::size_request(&mut host, true);
    assert_eq!(future.cookie(), 1);
    assert_eq!(request.file, "1.js");
    assert_eq!(request.script, GET_SIZE);
}

#[test]
fn default_configuration_is_line_mode() {
    assert_eq!(script_of(&Config::default()), RAW_OFF);
    let shown = format!("{:?}", Config::default());
    assert_eq!(
        shown,
        "Config { echo_input: true, line_input: true, interrupt_signals: true, output_nl_as_nlcr: false }"
    );
}

#[test]
fn from_term_is_the_default_whatever_the_host_says() {
    let failed = Config::get_window_size(Err("host is gone"));
    let config = Config::from_term((), failed).unwrap();
    assert_eq!(format!("{:?}", config), format!("{:?}", Config::default()));
    let config = Config::from_term("terminal", Ok((1, 1))).unwrap();
    assert_eq!(format!("{:?}", config), format!("{:?}", Config::default()));
}

#[test]
fn raw_mode_decides_the_script() {
    let mut config = Config::default();
    config.set_raw_mode(true);
    assert_eq!(script_of(&config), RAW_ON);
    config.set_raw_mode(false);
    assert_eq!(script_of(&config), RAW_OFF);
    config.update(&Settings { line_input: Some(false), ..NO_CHANGE });
    assert_eq!(script_of(&config), RAW_ON);
}

#[test]
fn settings_that_are_present_change() {
    let mut config = Config::default();
    config.update(&NO_CHANGE);
    assert_eq!(format!("{:?}", config), format!("{:?}", Config::default()));
    let change = Settings {
        echo_input: Some(false),
        line_input: None,
        interrupt_signals: Some(false),
        output_nl_as_nlcr: Some(true),
    };
    config.update(&change);
    let once = format!("{:?}", config);
    assert_eq!(
        once,
        "Config { echo_input: false, line_input: true, interrupt_signals: false, output_nl_as_nlcr: true }"
    );
    config.update(&change);
    assert_eq!(format!("{:?}", config), once);
    assert_eq!(format!("{:?}", config.clone()), once);
    config.update(&Settings { echo_input: Some(true), ..NO_CHANGE });
    assert_eq!(
        format!("{:?}", config),
        "Config { echo_input: true, line_input: true, interrupt_signals: false, output_nl_as_nlcr: true }"
    );
}

#[test]
fn there_are_no_processes() {
    assert_eq!(get_parent_process_id(), None);
    assert_eq!(get_process_group_id(), None);
    assert_eq!(get_foreground_pid(), None);
    assert!(move_to_foreground(1).is_ok());
    assert!(move_self_to_foreground().is_ok());
}

#[test]
fn platform_errors_become_core_errors() {
    let error = PlatformError::Message("no host".to_string());
    assert_eq!(error.message(), "no host");
    match Kind::from(error) {
        Kind::PlatformError(error) => assert_eq!(error.message(), "no host"),
        Kind::IoError(_) => panic!("a platform error was expected"),
    }
}
