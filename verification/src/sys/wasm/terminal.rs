//! A terminal that belongs to a host. Each operation on it is a script that the host evaluates;
//! the host calls back once it has left a reply, and the task that waits for it is woken.

use crate::error::{reports, Error};
use crate::sys::host::cookie::{cookie_after, CookieCounter};
use crate::sys::host::reply::{
    json_document, mode_verdict, parse_document, parsed_view, size_verdict, Document, MemberView,
};
use crate::sys::host::request::{
    pick_directory, reply_file, reply_file_name, request_directory, request_file_name, EvalRequest,
    ReplyLocation, PRIMARY_DIRECTORY,
};
use crate::sys::host::scripts::{input_mode_script, mode_script, GET_SIZE};
use crate::sys::process::ProcessId;
use crate::terminal::{updated, Settings};
use crate::text::joined;
use std::collections::HashMap;
use vstd::prelude::*;

verus! {

broadcast use vstd::std_specs::hash::group_hash_axioms;

/// What is known about the evaluation requests of a process, where a waiting task is woken by a
/// `W`. The maps exist once a first request has been made.
pub struct HostState<W> {
    cookies: CookieCounter,
    continuations: Option<HashMap<u32, W>>,
    results: Option<HashMap<u32, String>>,
    eval_path: Option<&'static str>,
}

/// The view of a [`HostState`].
#[verifier::ext_equal]
pub struct HostView<W> {
    /// The cookie of the next request.
    pub next_cookie: u32,
    /// What wakes the tasks that wait, by cookie.
    pub continuations: Option<Map<u32, W>>,
    /// The replies that nobody has fetched yet, by cookie.
    pub results: Option<Map<u32, String>>,
    /// The directory in which replies are looked for.
    pub eval_path: Option<Seq<char>>,
}

impl<W> View for HostState<W> {
    type V = HostView<W>;

    closed spec fn view(&self) -> HostView<W> {
        HostView {
            next_cookie: self.cookies@,
            continuations: match self.continuations {
                Some(map) => Some(map@),
                None => None,
            },
            results: match self.results {
                Some(map) => Some(map@),
                None => None,
            },
            eval_path: match self.eval_path {
                Some(path) => Some(path@),
                None => None,
            },
        }
    }
}

/// `map`, or the empty map where there is none yet.
pub open spec fn initialized<V>(map: Option<Map<u32, V>>) -> Map<u32, V> {
    match map {
        Some(map) => map,
        None => Map::empty(),
    }
}

/// The state after a request has been made.
pub open spec fn after_request<W>(state: HostView<W>, primary: bool) -> HostView<W> {
    HostView {
        next_cookie: cookie_after(state.next_cookie),
        continuations: Some(initialized(state.continuations)),
        results: Some(initialized(state.results)),
        eval_path: match state.eval_path {
            Some(path) => Some(path),
            None => Some(request_directory(primary)),
        },
    }
}

/// What a task that waits for the reply to `cookie` gets now.
pub open spec fn fetched<W>(state: HostView<W>, cookie: u32) -> Option<String> {
    if initialized(state.results).contains_key(cookie) {
        Some(initialized(state.results)[cookie])
    } else {
        None
    }
}

/// The state after a task that `waker` wakes has asked for the reply to `cookie`.
pub open spec fn after_poll<W>(state: HostView<W>, cookie: u32, waker: W) -> HostView<W> {
    if fetched(state, cookie) is Some {
        HostView { results: Some(initialized(state.results).remove(cookie)), ..state }
    } else {
        HostView {
            results: Some(initialized(state.results)),
            continuations: Some(initialized(state.continuations).insert(cookie, waker)),
            ..state
        }
    }
}

/// The state after the host has called back for `cookie`, where `reply` is what could be read
/// of its reply.
pub open spec fn after_continue<W>(state: HostView<W>, cookie: u32, reply: Option<String>) -> HostView<
    W,
> {
    match reply {
        Some(text) => HostView {
            results: match state.results {
                Some(results) => Some(results.insert(cookie, text)),
                None => None,
            },
            continuations: match state.continuations {
                Some(continuations) => Some(continuations.remove(cookie)),
                None => None,
            },
            ..state
        },
        None => state,
    }
}

/// What is woken when the host calls back for `cookie`.
pub open spec fn woken<W>(state: HostView<W>, cookie: u32, reply: Option<String>) -> Option<W> {
    if reply is Some && initialized(state.continuations).contains_key(cookie) {
        Some(initialized(state.continuations)[cookie])
    } else {
        None
    }
}

/// What is left to do after the host has called back.
#[derive(Debug)]
pub struct Continued<W> {
    /// Whether the reply's file is to be removed.
    pub remove_reply: bool,
    /// What is to be woken.
    pub wake: Option<W>,
}

impl<W> HostState<W> {
    /// The state of a process that has made no request.
    pub fn new() -> (state: Self)
        ensures
            state@ == (HostView {
                next_cookie: 1,
                continuations: None::<Map<u32, W>>,
                results: None::<Map<u32, String>>,
                eval_path: None::<Seq<char>>,
            }),
    {
        HostState { cookies: CookieCounter::new(), continuations: None, results: None, eval_path: None }
    }

    /// Makes sure that both maps exist.
    pub fn init_maps(&mut self)
        ensures
            final(self)@ == (HostView {
                continuations: Some(initialized(old(self)@.continuations)),
                results: Some(initialized(old(self)@.results)),
                ..old(self)@
            }),
    {
        self.init_continuations();
        self.init_results();
    }

    fn init_continuations(&mut self)
        ensures
            final(self)@ == (HostView {
                continuations: Some(initialized(old(self)@.continuations)),
                ..old(self)@
            }),
            final(self).continuations is Some,
    {
        if self.continuations.is_none() {
            self.continuations = Some(HashMap::new());
        }
    }

    fn init_results(&mut self)
        ensures
            final(self)@ == (HostView {
                results: Some(initialized(old(self)@.results)),
                ..old(self)@
            }),
            final(self).results is Some,
    {
        if self.results.is_none() {
            self.results = Some(HashMap::new());
        }
    }

    /// Hands out the cookie for the next request.
    pub fn next_cookie(&mut self) -> (cookie: u32)
        ensures
            cookie == old(self)@.next_cookie,
            final(self)@ == (HostView { next_cookie: cookie_after(cookie), ..old(self)@ }),
    {
        self.cookies.next_cookie()
    }

    /// Where the reply to request `cookie` is looked for: in the directory of the first request,
    /// or in the primary one where there was no request yet.
    pub fn reply_location(&self, cookie: u32) -> (location: ReplyLocation)
        ensures
            location.directory@ == (match self@.eval_path {
                Some(path) => path,
                None => PRIMARY_DIRECTORY@,
            }),
            location.file@ == reply_file(cookie),
    {
        let directory: &'static str = match self.eval_path {
            Some(path) => path,
            None => PRIMARY_DIRECTORY,
        };
        ReplyLocation { directory, file: reply_file_name(cookie) }
    }
}

/// A request whose reply is awaited.
#[derive(Debug)]
pub struct WasmHostFuture {
    cookie: u32,
}

/// How far an awaited reply has come.
#[derive(Debug)]
pub enum Progress {
    /// It is there.
    Ready(Result<String, &'static str>),
    /// It is not there yet; the task will be woken when it is.
    Pending,
}

impl View for WasmHostFuture {
    type V = u32;

    closed spec fn view(&self) -> u32 {
        self.cookie
    }
}

impl WasmHostFuture {
    /// Makes a request for the evaluation of `js`, given whether the primary directory could be
    /// created. The request that comes back is still to be written out.
    pub fn new<W>(host: &mut HostState<W>, js: String, primary_created: bool) -> (made: (
        WasmHostFuture,
        EvalRequest,
    ))
        ensures
            made.0@ == old(host)@.next_cookie,
            made.1.asks(primary_created, made.0@, js@),
            made.1.create_directory == !primary_created,
            final(host)@ == after_request(old(host)@, primary_created),
    {
        host.init_maps();
        let cookie: u32 = host.next_cookie();
        let directory: &'static str = pick_directory(primary_created);
        if host.eval_path.is_none() {
            host.eval_path = Some(directory);
        }
        let request = EvalRequest {
            directory,
            create_directory: !primary_created,
            file: request_file_name(cookie),
            script: js,
        };
        (WasmHostFuture { cookie }, request)
    }

    /// The request's cookie.
    pub fn cookie(&self) -> (cookie: u32)
        ensures
            cookie == self@,
    {
        self.cookie
    }

    /// Fetches the reply, if it is there; else has `waker` kept until it is.
    pub fn poll<W>(&self, host: &mut HostState<W>, waker: W) -> (progress: Progress)
        ensures
            progress == (match fetched(old(host)@, self@) {
                Some(text) => Progress::Ready(Ok(text)),
                None => Progress::Pending,
            }),
            final(host)@ == after_poll(old(host)@, self@, waker),
    {
        let cookie: u32 = self.cookie;
        host.init_results();
        let found: Option<String> = match &mut host.results {
            Some(results) => results.remove(&cookie),
            None => None,
        };
        if let Some(text) = found {
            return Progress::Ready(Ok(text));
        }
        host.init_continuations();
        if let Some(continuations) = &mut host.continuations {
            continuations.insert(cookie, waker);
        }
        Progress::Pending
    }
}

/// Takes note that the host has called back for `cookie`, where `reply` is what could be read of
/// its reply.
pub fn _continue<W>(host: &mut HostState<W>, cookie: u32, reply: Option<String>) -> (continued: Continued<
    W,
>)
    ensures
        continued.remove_reply == (reply is Some),
        continued.wake == woken(old(host)@, cookie, reply),
        final(host)@ == after_continue(old(host)@, cookie, reply),
{
    match reply {
        Some(text) => {
            if let Some(results) = &mut host.results {
                results.insert(cookie, text);
            }
            let wake: Option<W> = match &mut host.continuations {
                Some(continuations) => continuations.remove(&cookie),
                None => None,
            };
            Continued { remove_reply: true, wake }
        },
        None => Continued { remove_reply: false, wake: None },
    }
}

/// The view of an evaluation's outcome.
pub open spec fn evaluated_view(evaluated: Result<String, &'static str>) -> Result<
    Seq<char>,
    Seq<char>,
> {
    match evaluated {
        Ok(text) => Ok(text@),
        Err(message) => Err(message@),
    }
}

/// Turns the outcome of an awaited evaluation into a result of the core: the reply's text, or an
/// error with the message.
pub fn eval_blocking(evaluated: Result<String, &'static str>) -> (result: Result<String, Error>)
    ensures
        match evaluated {
            Ok(text) => result == Ok::<String, Error>(text),
            Err(message) => result matches Err(error) && error.is_io(message@),
        },
{
    match evaluated {
        Ok(text) => Ok(text),
        Err(message) => Err(Error::io(message.to_owned())),
    }
}

/// A terminal's configuration.
#[derive(Debug)]
pub struct Config {
    echo_input: bool,
    line_input: bool,
    interrupt_signals: bool,
    output_nl_as_nlcr: bool,
}

/// The view of a [`Config`].
pub struct ConfigView {
    pub echo_input: bool,
    pub line_input: bool,
    pub interrupt_signals: bool,
    pub output_nl_as_nlcr: bool,
}

impl View for Config {
    type V = ConfigView;

    closed spec fn view(&self) -> ConfigView {
        ConfigView {
            echo_input: self.echo_input,
            line_input: self.line_input,
            interrupt_signals: self.interrupt_signals,
            output_nl_as_nlcr: self.output_nl_as_nlcr,
        }
    }
}

/// The configuration of a terminal that nobody has changed.
pub open spec fn default_config() -> ConfigView {
    ConfigView {
        echo_input: true,
        line_input: true,
        interrupt_signals: true,
        output_nl_as_nlcr: false,
    }
}

/// `config`, changed by `settings`.
pub open spec fn config_after(config: ConfigView, settings: Settings) -> ConfigView {
    ConfigView {
        echo_input: updated(config.echo_input, settings.echo_input),
        line_input: updated(config.line_input, settings.line_input),
        interrupt_signals: updated(config.interrupt_signals, settings.interrupt_signals),
        output_nl_as_nlcr: updated(config.output_nl_as_nlcr, settings.output_nl_as_nlcr),
    }
}

/// `config`, in raw mode or not.
pub open spec fn config_with_raw_mode(config: ConfigView, raw: bool) -> ConfigView {
    ConfigView { line_input: !raw, ..config }
}

/// What applying a configuration comes to, once the reply has been parsed.
pub open spec fn apply_conclusion(
    parsed: Result<Map<Seq<char>, MemberView>, Seq<char>>,
) -> Result<(), Seq<char>> {
    match parsed {
        Ok(members) => mode_verdict(members),
        Err(message) => Err("parse eval response: "@ + message),
    }
}

/// What applying a configuration comes to, once the host has evaluated the script.
pub open spec fn apply_outcome(evaluated: Result<Seq<char>, Seq<char>>) -> Result<(), Seq<char>> {
    match evaluated {
        Ok(text) => apply_conclusion(json_document(text)),
        Err(message) => Err(message),
    }
}

/// What asking for the terminal's size comes to, once the reply has been parsed.
pub open spec fn size_conclusion(
    parsed: Result<Map<Seq<char>, MemberView>, Seq<char>>,
) -> Result<(u16, u16), Seq<char>> {
    match parsed {
        Ok(members) => size_verdict(members),
        Err(message) => Err("parse get-size json: "@ + message),
    }
}

/// What asking for the terminal's size comes to, once the host has evaluated the script.
pub open spec fn size_outcome(evaluated: Result<Seq<char>, Seq<char>>) -> Result<
    (u16, u16),
    Seq<char>,
> {
    match evaluated {
        Ok(text) => size_conclusion(json_document(text)),
        Err(message) => Err(message),
    }
}

impl Clone for Config {
    fn clone(&self) -> (config: Self)
        ensures
            config@ == self@,
    {
        Config {
            echo_input: self.echo_input,
            line_input: self.line_input,
            interrupt_signals: self.interrupt_signals,
            output_nl_as_nlcr: self.output_nl_as_nlcr,
        }
    }
}

impl Default for Config {
    fn default() -> (config: Self)
        ensures
            config@ == default_config(),
    {
        Config {
            echo_input: true,
            line_input: true,
            interrupt_signals: true,
            output_nl_as_nlcr: false,
        }
    }
}

impl Config {
    /// The configuration of the terminal `_fd`. The host cannot be asked for it, so it is the
    /// default one, whatever the host answers to the question for the terminal's size.
    pub fn from_term<F>(_fd: F, _size: Result<(u16, u16), Error>) -> (config: Result<Self, Error>)
        ensures
            config matches Ok(config) && config@ == default_config(),
    {
        Ok(Self::default())
    }

    /// Makes the request that applies this configuration to the host's terminal.
    pub fn apply_request<W>(&self, host: &mut HostState<W>, primary_created: bool) -> (made: (
        WasmHostFuture,
        EvalRequest,
    ))
        ensures
            made.0@ == old(host)@.next_cookie,
            made.1.asks(primary_created, made.0@, mode_script(self@.line_input)),
            made.1.create_directory == !primary_created,
            final(host)@ == after_request(old(host)@, primary_created),
    {
        let js: &'static str = input_mode_script(self.line_input);
        WasmHostFuture::new(host, js.to_owned(), primary_created)
    }

    /// What applying this configuration to the terminal `_fd` comes to, where `evaluated` is the
    /// outcome of the request that [`Config::apply_request`] makes.
    pub fn apply_to_term<F>(&self, _fd: F, evaluated: Result<String, &'static str>) -> (result: Result<
        (),
        Error,
    >)
        ensures
            reports(result, apply_outcome(evaluated_view(evaluated))),
    {
        match eval_blocking(evaluated) {
            Ok(text) => Self::conclude_apply(parse_document(text.as_str())),
            Err(error) => Err(error),
        }
    }

    /// What applying a configuration comes to, where `parsed` is the parsed reply.
    pub fn conclude_apply(parsed: Result<Document, String>) -> (result: Result<(), Error>)
        ensures
            reports(result, apply_conclusion(parsed_view(parsed))),
    {
        match parsed {
            Ok(document) => document.mode_result(),
            Err(message) => Err(Error::io(joined("parse eval response: ", message.as_str()))),
        }
    }

    /// Changes the settings that are present in `settings`.
    pub fn update(&mut self, settings: &Settings)
        ensures
            final(self)@ == config_after(old(self)@, *settings),
    {
        if let Some(e) = settings.echo_input {
            self.echo_input = e;
        }
        if let Some(l) = settings.line_input {
            self.line_input = l;
        }
        if let Some(i) = settings.interrupt_signals {
            self.interrupt_signals = i;
        }
        if let Some(o) = settings.output_nl_as_nlcr {
            self.output_nl_as_nlcr = o;
        }
    }

    /// Switches raw mode on or off.
    pub fn set_raw_mode(&mut self, v: bool)
        ensures
            final(self)@ == config_with_raw_mode(old(self)@, v),
    {
        self.line_input = !v;
    }

    /// Makes the request that asks for the terminal's size.
    pub fn size_request<W>(host: &mut HostState<W>, primary_created: bool) -> (made: (
        WasmHostFuture,
        EvalRequest,
    ))
        ensures
            made.0@ == old(host)@.next_cookie,
            made.1.asks(primary_created, made.0@, GET_SIZE@),
            made.1.create_directory == !primary_created,
            final(host)@ == after_request(old(host)@, primary_created),
    {
        WasmHostFuture::new(host, GET_SIZE.to_owned(), primary_created)
    }

    /// The terminal's size in columns and rows, where `evaluated` is the outcome of the request
    /// that [`Config::size_request`] makes.
    pub fn get_window_size(evaluated: Result<String, &'static str>) -> (result: Result<
        (u16, u16),
        Error,
    >)
        ensures
            reports(result, size_outcome(evaluated_view(evaluated))),
    {
        match eval_blocking(evaluated) {
            Ok(text) => Self::conclude_size(parse_document(text.as_str())),
            Err(error) => Err(error),
        }
    }

    /// The terminal's size in columns and rows, where `parsed` is the parsed reply.
    pub fn conclude_size(parsed: Result<Document, String>) -> (result: Result<(u16, u16), Error>)
        ensures
            reports(result, size_conclusion(parsed_view(parsed))),
    {
        match parsed {
            Ok(document) => document.size_result(),
            Err(message) => Err(Error::io(joined("parse get-size json: ", message.as_str()))),
        }
    }

    /// Whether there is a terminal: it is one that has a size.
    pub fn isatty(evaluated: Result<String, &'static str>) -> (tty: bool)
        ensures
            tty == (size_outcome(evaluated_view(evaluated)) is Ok),
    {
        Self::get_window_size(evaluated).is_ok()
    }
}

/// The parent process. There are no processes here.
pub fn get_parent_process_id() -> (pid: Option<ProcessId>)
    ensures
        pid is None,
{
    None
}

/// The process group. There are no processes here.
pub fn get_process_group_id() -> (pid: Option<ProcessId>)
    ensures
        pid is None,
{
    None
}

/// The process in the foreground. There are no processes here.
pub fn get_foreground_pid() -> (pid: Option<ProcessId>)
    ensures
        pid is None,
{
    None
}

/// Moves a process to the foreground, to no effect: there are no processes here.
pub fn move_to_foreground(_pid: ProcessId) -> (result: Result<(), Error>)
    ensures
        result is Ok,
{
    Ok(())
}

/// Moves this process to the foreground, to no effect: there are no processes here.
pub fn move_self_to_foreground() -> (result: Result<(), Error>)
    ensures
        result is Ok,
{
    Ok(())
}

} // verus!
