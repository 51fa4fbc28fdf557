use brush_embedded::error::{Error, Kind};
use brush_embedded::sys::host::cookie::CookieCounter;
use brush_embedded::sys::host::reply::Document;
use brush_embedded::sys::host::scripts::{GET_SIZE, RAW_OFF, RAW_ON};
use brush_embedded::sys::wasm_shim::terminal::{
    conclude_reply, get_foreground_pid, get_parent_process_id, get_process_group_id,
    move_self_to_foreground, move_to_foreground, Config, Evaluation, ReplyWait, WaitStep,
};
use brush_embedded::sys::wasm_shim::PlatformError;
use brush_embedded::terminal::Settings;

fn io_message<T>(result: Result<T, Error>) -> String {
    match result {
        Err(Error { kind: Kind::IoError(message) }) => message,
        _ => panic!("an input or output error was expected"),
    }
}

fn wait() -> ReplyWait {
    let mut cookies = CookieCounter::new();
    Evaluation::begin(&mut cookies, "1", true).0.written(Ok(())).unwrap()
}

fn read(text: &str) -> Result<Document, String> {
    wait().finish(Ok(text.to_string())).outcome
}

fn fields(config: &Config) -> [bool; 4] {
    [config.echo_input, config.line_input, config.interrupt_signals, config.output_nl_as_nlcr]
}

#[test]
fn requests_and_replies_share_a_place() {
    let mut cookies = CookieCounter::new();
    let (first, request) = Evaluation::begin(&mut cookies, "one", false);
    assert_eq!(request.directory, "./dev/host/eval");
    assert!(request.create_directory);
    assert_eq!(request.file, "1.js");
    assert_eq!(request.script, "one");
    let location = first.written(Ok(())).unwrap().reply_location();
    assert_eq!(location.directory, "./dev/host/eval");
    assert_eq!(location.file, "1.json");

    let (second, request) = Evaluation::begin(&mut cookies, "two", true);
    assert_eq!(request.directory, "/dev/host/eval");
    assert!(request.create_directory);
    assert_eq!(request.file, "2.js");
    let location = second.written(Ok(())).unwrap().reply_location();
    assert_eq!(location.directory, "/dev/host/eval");
    assert_eq!(location.file, "2.json");
}

#[test]
fn failed_write_is_reported() {
    let mut cookies = CookieCounter::new();
    let (evaluation, _) = Evaluation::begin(&mut cookies, "1", true);
    let error = evaluation.written(Err("disk full".to_string())).unwrap_err();
    assert_eq!(error, "write js: disk full");
}

#[test]
fn wait_is_over_after_two_seconds() {
    let mut wait = wait();
    let mut slept: u64 = 0;
    let mut looks = 0;
    while !wait.is_over() {
        match wait.looked(false) {
            WaitStep::Sleep(millis) => slept += millis,
            step => panic!("unexpected step {:?}", step),
        }
        looks += 1;
    }
    assert_eq!(looks, 200);
    assert_eq!(slept, 2000);
    assert_eq!(wait.looked(true), WaitStep::GiveUp);
    assert_eq!(wait.looked(false), WaitStep::GiveUp);
    assert_eq!(wait.give_up().unwrap_err(), "host eval timeout");
}

#[test]
fn reply_is_read_at_the_last_look() {
    let mut wait = wait();
    for _ in 0..199 {
        assert_eq!(wait.looked(false), WaitStep::Sleep(10));
    }
    assert!(!wait.is_over());
    assert_eq!(wait.looked(true), WaitStep::Read);
}

#[test]
fn reply_is_read_at_once() {
    let mut wait = wait();
    assert_eq!(wait.looked(true), WaitStep::Read);
    assert!(!wait.is_over());
    let finished = wait.finish(Ok(r#"{"ok":true}"#.to_string()));
    assert!(finished.remove_reply);
    assert!(finished.outcome.unwrap().is_success());
}

#[test]
fn failed_read_is_reported() {
    let finished = wait().finish(Err("denied".to_string()));
    assert!(!finished.remove_reply);
    assert_eq!(finished.outcome.unwrap_err(), "read json: denied");
}

#[test]
fn malformed_reply_is_reported_and_removed() {
    let message = serde_json::from_str::<serde_json::Value>("{").unwrap_err().to_string();
    let finished = wait().finish(Ok("{".to_string()));
    assert!(finished.remove_reply);
    assert_eq!(finished.outcome.unwrap_err(), format!("parse json: {}", message));
    assert_eq!(conclude_reply(Err("bad".to_string())).unwrap_err(), "parse json: bad");
}

#[test]
fn applying_reports_the_watched_reply() {
    let config = Config::default();
    assert!(config.apply_to_term((), read(r#"{"ok":true}"#)).is_ok());
    assert_eq!(
        io_message(config.apply_to_term((), read(r#"{"ok":false,"err":"no tty"}"#))),
        "no tty"
    );
    assert_eq!(io_message(config.apply_to_term((), read("{}"))), "unknown");
    assert_eq!(
        io_message(config.apply_to_term((), wait().give_up())),
        "host eval timeout"
    );
}

#[test]
fn watched_window_sizes() {
    assert_eq!(
        Config::get_window_size(read(r#"{"ok":true,"cols":100,"rows":30}"#)).unwrap(),
        (100, 30)
    );
    assert_eq!(Config::get_window_size(read(r#"{"ok":true}"#)).unwrap(), (80, 24));
    assert_eq!(io_message(Config::get_window_size(read("{}"))), "failed to get size");
    assert_eq!(
        io_message(Config::get_window_size(wait().give_up())),
        "host eval timeout"
    );
    assert!(Config::isatty(read(r#"{"ok":true}"#)));
    assert!(!Config::isatty(read("{}")));
    assert!(!Config::isatty(wait().give_up()));
}

#[test]
fn requests_carry_their_scripts() {
    let mut cookies = CookieCounter::new();
    let mut config = Config::default();
    assert_eq!(config.apply_request(&mut cookies, true).1.script, RAW_OFF);
    config.set_raw_mode(true);
    assert_eq!(config.apply_request(&mut cookies, true).1.script, RAW_ON);
    assert_eq!(Config::size_request(&mut cookies, true).1.script, GET_SIZE);
    assert_eq!(cookies.next_cookie(), 4);
}

#[test]
fn configurations_change_as_told() {
    let mut config = Config::from_term((), Ok((1, 1))).unwrap();
    assert_eq!(fields(&config), [true, true, true, false]);
    config.update(&Settings {
        echo_input: Some(false),
        line_input: Some(false),
        interrupt_signals: None,
        output_nl_as_nlcr: Some(true),
    });
    assert_eq!(fields(&config), [false, false, true, true]);
    config.set_raw_mode(false);
    assert_eq!(fields(&config.clone()), [false, true, true, true]);
}

#[test]
fn polling_host_has_no_processes() {
    assert_eq!(get_parent_process_id(), None);
    assert_eq!(get_process_group_id(), None);
    assert_eq!(get_foreground_pid(), None);
    assert!(move_to_foreground(1).is_ok());
    assert!(move_self_to_foreground().is_ok());
}

#[test]
fn platform_errors_have_a_message() {
    assert_eq!(PlatformError::Message("no host".to_string()).message(), "no host");
}
