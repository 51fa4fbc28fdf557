use brush_embedded::error::{Error, Kind};
use brush_embedded::sys::host::cookie::CookieCounter;
use brush_embedded::sys::host::reply::{Document, Member};
use brush_embedded::sys::host::request::{
    pick_directory, reply_file_name, request_file_name, FALLBACK_DIRECTORY, PRIMARY_DIRECTORY,
};
use brush_embedded::sys::host::scripts::{input_mode_script, GET_SIZE, RAW_OFF, RAW_ON};
use brush_embedded::text::{decimal_text, joined, starts_with};

fn io_message<T>(result: Result<T, Error>) -> String {
    match result {
        Err(Error { kind: Kind::IoError(message) }) => message,
        _ => panic!("an input or output error was expected"),
    }
}

fn flag(value: bool) -> Member {
    Member::Flag(value)
}

fn number(value: u64) -> Member {
    Member::Number(Some(value))
}

fn text(value: &str) -> Member {
    Member::Text(value.to_string())
}

fn document(members: Vec<(&str, Member)>) -> Document {
    let members = members.into_iter().map(|(name, member)| (name.to_string(), member)).collect();
    Document { members: Some(members) }
}

#[test]
fn numbers_in_decimal() {
    assert_eq!(decimal_text(0), "0");
    assert_eq!(decimal_text(9), "9");
    assert_eq!(decimal_text(10), "10");
    assert_eq!(decimal_text(4096), "4096");
    assert_eq!(decimal_text(u32::MAX), "4294967295");
}

#[test]
fn text_is_joined() {
    assert_eq!(joined("", ""), "");
    assert_eq!(joined("parse json: ", "héllo"), "parse json: héllo");
}

#[test]
fn prefixes_are_found() {
    assert!(starts_with("+Oxyz", "+O"));
    assert!(starts_with("+O", "+O"));
    assert!(starts_with("anything", ""));
    assert!(!starts_with("+", "+O"));
    assert!(!starts_with("", "-"));
    assert!(!starts_with("a+O", "+O"));
    assert!(starts_with("äöü", "äö"));
}

#[test]
fn cookies_count_from_one() {
    let mut counter = CookieCounter::new();
    assert_eq!(counter.next_cookie(), 1);
    assert_eq!(counter.next_cookie(), 2);
    assert_eq!(counter.next_cookie(), 3);
}

#[test]
fn files_are_named_by_cookie() {
    assert_eq!(request_file_name(1), "1.js");
    assert_eq!(reply_file_name(1), "1.json");
    assert_eq!(request_file_name(4294967295), "4294967295.js");
    assert_ne!(request_file_name(1), request_file_name(11));
    assert_ne!(reply_file_name(1), reply_file_name(11));
}

#[test]
fn directories() {
    assert_eq!(PRIMARY_DIRECTORY, "/dev/host/eval");
    assert_eq!(FALLBACK_DIRECTORY, "./dev/host/eval");
    assert_eq!(pick_directory(true), "/dev/host/eval");
    assert_eq!(pick_directory(false), "./dev/host/eval");
}

#[test]
fn scripts_differ() {
    assert_eq!(input_mode_script(true), RAW_OFF);
    assert_eq!(input_mode_script(false), RAW_ON);
    assert!(RAW_ON.contains("setRawMode(true)"));
    assert!(RAW_OFF.contains("setRawMode(false)"));
    assert!(GET_SIZE.contains("process.stdout.columns||80"));
    assert_eq!(RAW_ON.replace("setRawMode(true)", "setRawMode(false)"), RAW_OFF);
}

#[test]
fn members_are_looked_up_by_name() {
    let reply = document(vec![("ok", flag(true)), ("cols", number(7)), ("err", text("no"))]);
    assert_eq!(reply.flag("ok"), Some(true));
    assert_eq!(reply.flag("cols"), None);
    assert_eq!(reply.flag("missing"), None);
    assert_eq!(reply.unsigned("cols"), Some(7));
    assert_eq!(reply.unsigned("ok"), None);
    assert_eq!(reply.text("err"), Some("no".to_string()));
    assert_eq!(reply.text("ok"), None);
    assert!(reply.get("ok").is_some());
    assert!(reply.get("o").is_none());
}

#[test]
fn later_member_counts() {
    let reply = document(vec![("ok", flag(true)), ("ok", flag(false))]);
    assert_eq!(reply.flag("ok"), Some(false));
    assert!(!reply.is_success());
}

#[test]
fn only_true_is_success() {
    assert!(document(vec![("ok", flag(true))]).is_success());
    assert!(!document(vec![("ok", flag(false))]).is_success());
    assert!(!document(vec![("ok", text("true"))]).is_success());
    assert!(!document(vec![("ok", number(1))]).is_success());
    assert!(!document(vec![("ok", Member::Null)]).is_success());
    assert!(!document(vec![("ok", Member::Array)]).is_success());
    assert!(!document(vec![("ok", Member::Object)]).is_success());
    assert!(!document(vec![]).is_success());
    assert!(!Document { members: None }.is_success());
}

#[test]
fn mode_replies() {
    assert!(document(vec![("ok", flag(true))]).mode_result().is_ok());
    let refused = document(vec![("ok", flag(false)), ("err", text("setRawMode not supported"))]);
    assert_eq!(io_message(refused.mode_result()), "setRawMode not supported");
    let silent = document(vec![("ok", flag(false))]);
    assert_eq!(io_message(silent.mode_result()), "unknown");
    let odd = document(vec![("err", number(3))]);
    assert_eq!(io_message(odd.mode_result()), "unknown");
}

#[test]
fn size_replies() {
    let given = document(vec![("ok", flag(true)), ("cols", number(132)), ("rows", number(50))]);
    assert_eq!(given.size_result().unwrap(), (132, 50));
    let defaults = document(vec![("ok", flag(true))]);
    assert_eq!(defaults.size_result().unwrap(), (80, 24));
    let odd = document(vec![("ok", flag(true)), ("cols", text("132"))]);
    assert_eq!(odd.size_result().unwrap(), (80, 24));
    let negative = document(vec![("ok", flag(true)), ("rows", Member::Number(None))]);
    assert_eq!(negative.size_result().unwrap(), (80, 24));
    let greatest = document(vec![("ok", flag(true)), ("cols", number(65535))]);
    assert_eq!(greatest.size_result().unwrap(), (65535, 24));
    let long = document(vec![("ok", flag(true)), ("cols", number(65536)), ("rows", number(65537))]);
    assert_eq!(long.size_result().unwrap(), (0, 1));
    let failed = document(vec![("ok", flag(false)), ("cols", number(132))]);
    assert_eq!(io_message(failed.size_result()), "failed to get size");
}
