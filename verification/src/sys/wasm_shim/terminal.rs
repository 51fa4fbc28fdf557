//! A terminal that belongs to a host. Each operation on it is a script that the host evaluates;
//! the reply is waited for by looking again and again whether it is there.

use crate::error::{reports, Error};
use crate::sys::host::cookie::{cookie_after, CookieCounter};
use crate::sys::host::reply::{
    json_document, mode_verdict, parse_document, parsed_view, size_verdict, Document, MemberView,
};
use crate::sys::host::request::{
    pick_directory, reply_file, reply_file_name, request_directory, request_file_name, EvalRequest,
    ReplyLocation,
};
use crate::sys::host::scripts::{input_mode_script, mode_script, GET_SIZE};
use crate::sys::process::ProcessId;
use crate::terminal::{updated, Settings};
use crate::text::joined;
use vstd::prelude::*;

verus! {

/// How often a reply is looked for before it is given up.
pub const LOOKS: u32 = 200;

/// How long to sleep after each look in vain, in milliseconds.
pub const PAUSE_MILLIS: u64 = 10;

/// A request that has been made and is still to be written out.
#[derive(Debug)]
pub struct Evaluation {
    directory: &'static str,
    cookie: u32,
}

/// The view of an [`Evaluation`] or of the wait for its reply: where the reply is looked for.
pub struct ReplyPlace {
    pub directory: Seq<char>,
    pub cookie: u32,
}

impl View for Evaluation {
    type V = ReplyPlace;

    closed spec fn view(&self) -> ReplyPlace {
        ReplyPlace { directory: self.directory@, cookie: self.cookie }
    }
}

/// The wait for a reply.
#[derive(Debug)]
pub struct ReplyWait {
    directory: &'static str,
    cookie: u32,
    looks_left: u32,
}

/// The view of a [`ReplyWait`].
pub struct WaitView {
    pub place: ReplyPlace,
    pub looks_left: u32,
}

impl View for ReplyWait {
    type V = WaitView;

    closed spec fn view(&self) -> WaitView {
        WaitView {
            place: ReplyPlace { directory: self.directory@, cookie: self.cookie },
            looks_left: self.looks_left,
        }
    }
}

/// What to do after a look whether the reply is there.
#[derive(Clone, Copy, Debug, PartialEq, Eq, Structural)]
pub enum WaitStep {
    /// Read the reply.
    Read,
    /// Sleep for so many milliseconds and look again.
    Sleep(u64),
    /// Give up.
    GiveUp,
}

/// The end of a wait that found the reply.
#[derive(Debug)]
pub struct Finished {
    /// Whether the reply's file is to be removed.
    pub remove_reply: bool,
    /// The reply, or the message that says why there is none.
    pub outcome: Result<Document, String>,
}

/// What to do after a look that found the reply, or did not.
pub open spec fn step_after_look(wait: WaitView, found: bool) -> WaitStep {
    if wait.looks_left == 0 {
        WaitStep::GiveUp
    } else if found {
        WaitStep::Read
    } else {
        WaitStep::Sleep(PAUSE_MILLIS)
    }
}

/// The wait after a look that found the reply, or did not.
pub open spec fn wait_after_look(wait: WaitView, found: bool) -> WaitView {
    if wait.looks_left == 0 || found {
        wait
    } else {
        WaitView { looks_left: (wait.looks_left - 1) as u32, ..wait }
    }
}

/// The reply, where `read` is what came of reading it.
pub open spec fn read_outcome(read: Result<Seq<char>, Seq<char>>) -> Result<
    Map<Seq<char>, MemberView>,
    Seq<char>,
> {
    match read {
        Ok(text) => reply_outcome(json_document(text)),
        Err(message) => Err("read json: "@ + message),
    }
}

/// The reply, where `parsed` is what came of parsing it.
pub open spec fn reply_outcome(parsed: Result<Map<Seq<char>, MemberView>, Seq<char>>) -> Result<
    Map<Seq<char>, MemberView>,
    Seq<char>,
> {
    match parsed {
        Ok(members) => Ok(members),
        Err(message) => Err("parse json: "@ + message),
    }
}

/// The view of a text, or of the message that says why there is none.
pub open spec fn text_view(text: Result<String, String>) -> Result<Seq<char>, Seq<char>> {
    match text {
        Ok(text) => Ok(text@),
        Err(message) => Err(message@),
    }
}

impl Evaluation {
    /// Makes a request for the evaluation of `js`, given whether the primary directory exists.
    /// The request that comes back is still to be written out.
    pub fn begin(cookies: &mut CookieCounter, js: &str, primary_exists: bool) -> (made: (
        Evaluation,
        EvalRequest,
    ))
        ensures
            made.0@ == (ReplyPlace {
                directory: request_directory(primary_exists),
                cookie: old(cookies)@,
            }),
            made.1.asks(primary_exists, old(cookies)@, js@),
            made.1.create_directory,
            final(cookies)@ == cookie_after(old(cookies)@),
    {
        let directory: &'static str = pick_directory(primary_exists);
        let cookie: u32 = cookies.next_cookie();
        let request = EvalRequest {
            directory,
            create_directory: true,
            file: request_file_name(cookie),
            script: js.to_owned(),
        };
        (Evaluation { directory, cookie }, request)
    }

    /// Begins to wait for the reply, where `outcome` is what came of writing the request out.
    pub fn written(self, outcome: Result<(), String>) -> (wait: Result<ReplyWait, String>)
        ensures
            match outcome {
                Ok(_) => wait matches Ok(wait) && wait@ == (WaitView {
                    place: self@,
                    looks_left: LOOKS,
                }),
                Err(message) => wait matches Err(error) && error@ == "write js: "@ + message@,
            },
    {
        match outcome {
            Ok(_) => Ok(
                ReplyWait { directory: self.directory, cookie: self.cookie, looks_left: LOOKS },
            ),
            Err(message) => Err(joined("write js: ", message.as_str())),
        }
    }
}

impl ReplyWait {
    /// Where the reply is looked for.
    pub fn reply_location(&self) -> (location: ReplyLocation)
        ensures
            location.directory@ == self@.place.directory,
            location.file@ == reply_file(self@.place.cookie),
    {
        ReplyLocation { directory: self.directory, file: reply_file_name(self.cookie) }
    }

    /// Whether the reply is not looked for any more.
    pub fn is_over(&self) -> (over: bool)
        ensures
            over == (self@.looks_left == 0),
    {
        self.looks_left == 0
    }

    /// Takes note of a look that found the reply, or did not, and says what to do next.
    pub fn looked(&mut self, found: bool) -> (step: WaitStep)
        ensures
            step == step_after_look(old(self)@, found),
            final(self)@ == wait_after_look(old(self)@, found),
    {
        if self.looks_left == 0 {
            WaitStep::GiveUp
        } else if found {
            WaitStep::Read
        } else {
            self.looks_left -= 1;
            WaitStep::Sleep(PAUSE_MILLIS)
        }
    }

    /// The outcome of a wait that was given up.
    pub fn give_up(self) -> (outcome: Result<Document, String>)
        ensures
            outcome matches Err(error) && error@ == "host eval timeout"@,
    {
        Err("host eval timeout".to_owned())
    }

    /// Ends a wait that found the reply, where `read` is what came of reading it.
    pub fn finish(self, read: Result<String, String>) -> (finished: Finished)
        ensures
            finished.remove_reply == (read is Ok),
            parsed_view(finished.outcome) == read_outcome(text_view(read)),
    {
        match read {
            Ok(text) => Finished {
                remove_reply: true,
                outcome: conclude_reply(parse_document(text.as_str())),
            },
            Err(message) => Finished {
                remove_reply: false,
                outcome: Err(joined("read json: ", message.as_str())),
            },
        }
    }
}

/// The reply, where `parsed` is what came of parsing it.
pub fn conclude_reply(parsed: Result<Document, String>) -> (outcome: Result<Document, String>)
    ensures
        parsed_view(outcome) == reply_outcome(parsed_view(parsed)),
{
    match parsed {
        Ok(document) => Ok(document),
        Err(message) => Err(joined("parse json: ", message.as_str())),
    }
}

/// A terminal's configuration.
#[derive(Debug)]
pub struct Config {
    /// Whether input is echoed.
    pub echo_input: bool,
    /// Whether input is handed over line by line.
    pub line_input: bool,
    /// Whether control characters raise signals.
    pub interrupt_signals: bool,
    /// Whether a newline in the output also returns the carriage.
    pub output_nl_as_nlcr: bool,
}

/// The configuration of a terminal that nobody has changed.
pub open spec fn default_config() -> Config {
    Config {
        echo_input: true,
        line_input: true,
        interrupt_signals: true,
        output_nl_as_nlcr: false,
    }
}

/// `config`, changed by `settings`.
pub open spec fn config_after(config: Config, settings: Settings) -> Config {
    Config {
        echo_input: updated(config.echo_input, settings.echo_input),
        line_input: updated(config.line_input, settings.line_input),
        interrupt_signals: updated(config.interrupt_signals, settings.interrupt_signals),
        output_nl_as_nlcr: updated(config.output_nl_as_nlcr, settings.output_nl_as_nlcr),
    }
}

/// What applying a configuration comes to, where `evaluated` is the outcome of its request.
pub open spec fn apply_outcome(evaluated: Result<Map<Seq<char>, MemberView>, Seq<char>>) -> Result<
    (),
    Seq<char>,
> {
    match evaluated {
        Ok(members) => mode_verdict(members),
        Err(message) => Err(message),
    }
}

/// What asking for the terminal's size comes to, where `evaluated` is the outcome of the request.
pub open spec fn size_outcome(evaluated: Result<Map<Seq<char>, MemberView>, Seq<char>>) -> Result<
    (u16, u16),
    Seq<char>,
> {
    match evaluated {
        Ok(members) => size_verdict(members),
        Err(message) => Err(message),
    }
}

impl Clone for Config {
    fn clone(&self) -> (config: Self)
        ensures
            config == *self,
    {
        Config {
            echo_input: self.echo_input,
            line_input: self.line_input,
            interrupt_signals: self.interrupt_signals,
            output_nl_as_nlcr: self.output_nl_as_nlcr,
        }
    }
}

impl Default for Config {
    fn default() -> (config: Self)
        ensures
            config == default_config(),
    {
        Config {
            echo_input: true,
            line_input: true,
            interrupt_signals: true,
            output_nl_as_nlcr: false,
        }
    }
}

impl Config {
    /// The configuration of the terminal `_fd`. The host cannot be asked for it, so it is the
    /// default one, whatever the host answers to the question for the terminal's size.
    pub fn from_term<F>(_fd: F, _size: Result<(u16, u16), Error>) -> (config: Result<Self, Error>)
        ensures
            config == Ok::<Self, Error>(default_config()),
    {
        Ok(Self::default())
    }

    /// Makes the request that applies this configuration to the host's terminal.
    pub fn apply_request(&self, cookies: &mut CookieCounter, primary_exists: bool) -> (made: (
        Evaluation,
        EvalRequest,
    ))
        ensures
            made.0@ == (ReplyPlace {
                directory: request_directory(primary_exists),
                cookie: old(cookies)@,
            }),
            made.1.asks(primary_exists, old(cookies)@, mode_script(self.line_input)),
            made.1.create_directory,
            final(cookies)@ == cookie_after(old(cookies)@),
    {
        Evaluation::begin(cookies, input_mode_script(self.line_input), primary_exists)
    }

    /// What applying this configuration to the terminal `_fd` comes to, where `evaluated` is the
    /// outcome of the request that [`Config::apply_request`] makes.
    pub fn apply_to_term<F>(&self, _fd: F, evaluated: Result<Document, String>) -> (result: Result<
        (),
        Error,
    >)
        ensures
            reports(result, apply_outcome(parsed_view(evaluated))),
    {
        match evaluated {
            Ok(document) => document.mode_result(),
            Err(message) => Err(Error::io(message)),
        }
    }

    /// Changes the settings that are present in `settings`.
    pub fn update(&mut self, settings: &Settings)
        ensures
            *final(self) == config_after(*old(self), *settings),
    {
        if let Some(e) = settings.echo_input {
            self.echo_input = e;
        }
        if let Some(l) = settings.line_input {
            self.line_input = l;
        }
        if let Some(i) = settings.interrupt_signals {
            self.interrupt_signals = i;
        }
        if let Some(o) = settings.output_nl_as_nlcr {
            self.output_nl_as_nlcr = o;
        }
    }

    /// Switches raw mode on or off.
    pub fn set_raw_mode(&mut self, v: bool)
        ensures
            *final(self) == (Config { line_input: !v, ..*old(self) }),
    {
        self.line_input = !v;
    }

    /// Makes the request that asks for the terminal's size.
    pub fn size_request(cookies: &mut CookieCounter, primary_exists: bool) -> (made: (
        Evaluation,
        EvalRequest,
    ))
        ensures
            made.0@ == (ReplyPlace {
                directory: request_directory(primary_exists),
                cookie: old(cookies)@,
            }),
            made.1.asks(primary_exists, old(cookies)@, GET_SIZE@),
            made.1.create_directory,
            final(cookies)@ == cookie_after(old(cookies)@),
    {
        Evaluation::begin(cookies, GET_SIZE, primary_exists)
    }

    /// The terminal's size in columns and rows, where `evaluated` is the outcome of the request
    /// that [`Config::size_request`] makes.
    pub fn get_window_size(evaluated: Result<Document, String>) -> (result: Result<
        (u16, u16),
        Error,
    >)
        ensures
            reports(result, size_outcome(parsed_view(evaluated))),
    {
        match evaluated {
            Ok(document) => document.size_result(),
            Err(message) => Err(Error::io(message)),
        }
    }

    /// Whether there is a terminal: it is one that has a size.
    pub fn isatty(evaluated: Result<Document, String>) -> (tty: bool)
        ensures
            tty == (size_outcome(parsed_view(evaluated)) is Ok),
    {
        Self::get_window_size(evaluated).is_ok()
    }
}

/// The parent process. There are no processes here.
pub fn get_parent_process_id() -> (pid: Option<ProcessId>)
    ensures
        pid is None,
{
    None
}

/// The process group. There are no processes here.
pub fn get_process_group_id() -> (pid: Option<ProcessId>)
    ensures
        pid is None,
{
    None
}

/// The process in the foreground. There are no processes here.
pub fn get_foreground_pid() -> (pid: Option<ProcessId>)
    ensures
        pid is None,
{
    None
}

/// Moves a process to the foreground, to no effect: there are no processes here.
pub fn move_to_foreground(_pid: ProcessId) -> (result: Result<(), Error>)
    ensures
        result is Ok,
{
    Ok(())
}

/// Moves this process to the foreground, to no effect: there are no processes here.
pub fn move_self_to_foreground() -> (result: Result<(), Error>)
    ensures
        result is Ok,
{
    Ok(())
}

} // verus!
