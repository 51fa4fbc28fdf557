//! What holds of the host's terminal as a whole.

use crate::sys::host::cookie::nth_cookie;
use crate::sys::host::reply::{json_document, succeeded, MemberView};
use crate::sys::host::request::request_directory;
use crate::sys::host::scripts::{mode_script, RAW_OFF, RAW_ON};
use crate::sys::wasm::terminal::{
    after_continue, after_poll, after_request, apply_conclusion, apply_outcome, config_after,
    config_with_raw_mode, default_config, evaluated_view, fetched, initialized, size_conclusion,
    size_outcome, woken, ConfigView, HostView,
};
use crate::terminal::{followed_by, Settings};
use vstd::prelude::*;

verus! {

/// An operation on the state of a process.
pub enum Operation<W> {
    /// A request is made.
    Request { primary: bool },
    /// A task asks for a reply.
    Poll { cookie: u32, waker: W },
    /// The host calls back.
    Continue { cookie: u32, reply: Option<String> },
}

/// The state after an operation.
pub open spec fn after_operation<W>(state: HostView<W>, operation: Operation<W>) -> HostView<W> {
    match operation {
        Operation::Request { primary } => after_request(state, primary),
        Operation::Poll { cookie, waker } => after_poll(state, cookie, waker),
        Operation::Continue { cookie, reply } => after_continue(state, cookie, reply),
    }
}

/// The state after some operations, one after the other.
pub open spec fn after_operations<W>(
    state: HostView<W>,
    operations: Seq<Operation<W>>,
) -> HostView<W>
    decreases operations.len(),
{
    if operations.len() == 0 {
        state
    } else {
        after_operation(after_operations(state, operations.drop_last()), operations.last())
    }
}

/// Whether an operation concerns the reply to `cookie`: a task asks for it, or the host brings it.
pub open spec fn concerns<W>(operation: Operation<W>, cookie: u32) -> bool {
    match operation {
        Operation::Request { primary } => false,
        Operation::Poll { cookie: other, waker } => other == cookie,
        Operation::Continue { cookie: other, reply } => other == cookie && reply is Some,
    }
}

/// Whether one of some operations concerns the reply to `cookie`.
pub open spec fn any_concerns<W>(operations: Seq<Operation<W>>, cookie: u32) -> bool {
    exists|i: int| 0 <= i < operations.len() && concerns(#[trigger] operations[i], cookie)
}

/// Whether no task waits for a reply that is already there.
pub open spec fn nobody_waits_in_vain<W>(state: HostView<W>) -> bool {
    forall|cookie: u32|
        !(#[trigger] initialized(state.continuations).contains_key(cookie) && initialized(
            state.results,
        ).contains_key(cookie))
}

/// A process that has made no request keeps nobody waiting in vain, and no operation changes
/// that.
pub proof fn nobody_ever_waits_in_vain<W>(
    state: HostView<W>,
    primary: bool,
    cookie: u32,
    waker: W,
    reply: Option<String>,
)
    ensures
        state.continuations is None ==> nobody_waits_in_vain(state),
        nobody_waits_in_vain(state) ==> nobody_waits_in_vain(after_request(state, primary)),
        nobody_waits_in_vain(state) ==> nobody_waits_in_vain(after_poll(state, cookie, waker)),
        nobody_waits_in_vain(state) ==> nobody_waits_in_vain(after_continue(state, cookie, reply)),
{
}

/// Requests do not touch each other: what happens under one cookie changes neither the reply
/// nor the waker under another, and a new request changes neither under any.
pub proof fn requests_are_independent<W>(
    state: HostView<W>,
    cookie: u32,
    other: u32,
    waker: W,
    reply: Option<String>,
    later: Option<String>,
    primary: bool,
)
    ensures
        cookie != other ==> fetched(after_poll(state, cookie, waker), other) == fetched(state, other),
        cookie != other ==> woken(after_poll(state, cookie, waker), other, later) == woken(
            state,
            other,
            later,
        ),
        cookie != other ==> fetched(after_continue(state, cookie, reply), other) == fetched(
            state,
            other,
        ),
        cookie != other ==> woken(after_continue(state, cookie, reply), other, later) == woken(
            state,
            other,
            later,
        ),
        fetched(after_request(state, primary), other) == fetched(state, other),
        woken(after_request(state, primary), other, later) == woken(state, other, later),
{
}

/// Whatever a process does, from its first request on, it keeps nobody waiting in vain.
pub proof fn nobody_waits_in_vain_in_any_state<W>(
    state: HostView<W>,
    operations: Seq<Operation<W>>,
)
    requires
        state.continuations is None,
    ensures
        nobody_waits_in_vain(after_operations(state, operations)),
    decreases operations.len(),
{
    if operations.len() > 0 {
        nobody_waits_in_vain_in_any_state(state, operations.drop_last());
        let before = after_operations(state, operations.drop_last());
        match operations.last() {
            Operation::Request { primary } => {
                assert(nobody_waits_in_vain(after_request(before, primary)));
            },
            Operation::Poll { cookie, waker } => {
                nobody_ever_waits_in_vain(before, true, cookie, waker, None);
            },
            Operation::Continue { cookie, reply } => {
                assert(nobody_waits_in_vain(after_continue(before, cookie, reply)));
            },
        }
    }
}

/// Operations that do not concern the reply to a request change neither that reply nor what is
/// woken by it, however many there are.
pub proof fn other_operations_do_not_matter<W>(
    state: HostView<W>,
    operations: Seq<Operation<W>>,
    cookie: u32,
    reply: Option<String>,
)
    requires
        !any_concerns(operations, cookie),
    ensures
        fetched(after_operations(state, operations), cookie) == fetched(state, cookie),
        woken(after_operations(state, operations), cookie, reply) == woken(state, cookie, reply),
    decreases operations.len(),
{
    if operations.len() > 0 {
        let others = operations.drop_last();
        assert forall|i: int| 0 <= i < others.len() implies !concerns(#[trigger] others[i], cookie) by {
            assert(!concerns(operations[i], cookie));
        }
        other_operations_do_not_matter(state, others, cookie, reply);
        assert(!concerns(operations[operations.len() - 1], cookie));
    }
}

/// A process that has made a request keeps the replies that come, whatever it does.
proof fn replies_stay_welcome<W>(state: HostView<W>, operations: Seq<Operation<W>>)
    requires
        state.results is Some,
    ensures
        after_operations(state, operations).results is Some,
    decreases operations.len(),
{
    if operations.len() > 0 {
        replies_stay_welcome(state, operations.drop_last());
    }
}

/// The reply to a request reaches the task that made it, whatever happens before the call back:
/// other requests, other replies, the task itself asking and waiting, or an earlier reply. Until
/// the task fetches the reply or another one replaces it, nothing else takes it away.
pub proof fn reply_reaches_its_request<W>(
    state: HostView<W>,
    primary: bool,
    before: Seq<Operation<W>>,
    reply: String,
    after: Seq<Operation<W>>,
)
    requires
        !any_concerns(after, state.next_cookie),
    ensures
        ({
            let cookie = state.next_cookie;
            let asked = after_operations(after_request(state, primary), before);
            let answered = after_operations(after_continue(asked, cookie, Some(reply)), after);
            fetched(answered, cookie) == Some(reply)
        }),
{
    let cookie = state.next_cookie;
    let asked = after_operations(after_request(state, primary), before);
    replies_stay_welcome(after_request(state, primary), before);
    other_operations_do_not_matter(after_continue(asked, cookie, Some(reply)), after, cookie, None);
}

/// A task that asked too early is woken by the reply, and then gets it, whatever happens to other
/// requests between its question and the reply, and between the reply and its next question.
pub proof fn waiting_task_is_woken<W>(
    state: HostView<W>,
    cookie: u32,
    waker: W,
    between: Seq<Operation<W>>,
    reply: String,
    after: Seq<Operation<W>>,
)
    requires
        fetched(state, cookie) is None,
        !any_concerns(between, cookie),
        !any_concerns(after, cookie),
    ensures
        ({
            let waiting = after_operations(after_poll(state, cookie, waker), between);
            let answered = after_operations(after_continue(waiting, cookie, Some(reply)), after);
            &&& fetched(waiting, cookie) is None
            &&& woken(waiting, cookie, Some(reply)) == Some(waker)
            &&& fetched(answered, cookie) == Some(reply)
        }),
{
    let asked = after_poll(state, cookie, waker);
    let waiting = after_operations(asked, between);
    replies_stay_welcome(asked, between);
    other_operations_do_not_matter(asked, between, cookie, Some(reply));
    other_operations_do_not_matter(
        after_continue(waiting, cookie, Some(reply)),
        after,
        cookie,
        None,
    );
}

/// Of a task that asks again, only the latest waker is kept; and once it has been woken, no
/// further reply wakes it before it asks again.
pub proof fn task_is_woken_once<W>(
    state: HostView<W>,
    cookie: u32,
    first: W,
    between: Seq<Operation<W>>,
    second: W,
    reply: String,
    after: Seq<Operation<W>>,
    again: Option<String>,
)
    requires
        fetched(state, cookie) is None,
        !any_concerns(between, cookie),
        !any_concerns(after, cookie),
    ensures
        ({
            let asked = after_operations(after_poll(state, cookie, first), between);
            let waiting = after_poll(asked, cookie, second);
            let answered = after_operations(after_continue(waiting, cookie, Some(reply)), after);
            &&& woken(waiting, cookie, Some(reply)) == Some(second)
            &&& woken(answered, cookie, again) is None
        }),
{
    let asked = after_operations(after_poll(state, cookie, first), between);
    let waiting = after_poll(asked, cookie, second);
    other_operations_do_not_matter(after_poll(state, cookie, first), between, cookie, None);
    other_operations_do_not_matter(
        after_continue(waiting, cookie, Some(reply)),
        after,
        cookie,
        again,
    );
}

/// A reply is handed out once: who asks for it again waits, until the host brings another.
pub proof fn reply_is_fetched_once<W>(
    state: HostView<W>,
    cookie: u32,
    waker: W,
    after: Seq<Operation<W>>,
)
    requires
        !any_concerns(after, cookie),
    ensures
        fetched(after_operations(after_poll(state, cookie, waker), after), cookie) is None,
{
    other_operations_do_not_matter(after_poll(state, cookie, waker), after, cookie, None);
}

/// Of two replies to one request, the later counts, whatever happens in between.
pub proof fn later_reply_counts<W>(
    state: HostView<W>,
    cookie: u32,
    first: String,
    between: Seq<Operation<W>>,
    second: String,
    after: Seq<Operation<W>>,
)
    requires
        state.results is Some,
        !any_concerns(after, cookie),
    ensures
        ({
            let replied = after_operations(after_continue(state, cookie, Some(first)), between);
            let answered = after_operations(after_continue(replied, cookie, Some(second)), after);
            fetched(answered, cookie) == Some(second)
        }),
{
    let replied = after_operations(after_continue(state, cookie, Some(first)), between);
    replies_stay_welcome(after_continue(state, cookie, Some(first)), between);
    other_operations_do_not_matter(
        after_continue(replied, cookie, Some(second)),
        after,
        cookie,
        None,
    );
}

/// A call back whose reply cannot be read changes nothing and wakes nobody.
pub proof fn unreadable_reply_changes_nothing<W>(state: HostView<W>, cookie: u32)
    ensures
        after_continue(state, cookie, None) == state,
        woken(state, cookie, None) is None,
{
}

/// A reply that comes before the first request is dropped.
pub proof fn unasked_reply_is_dropped<W>(state: HostView<W>, cookie: u32, reply: String)
    requires
        state.results is None,
        state.continuations is None,
    ensures
        after_continue(state, cookie, Some(reply)) == state,
        woken(state, cookie, Some(reply)) is None,
{
}

/// How many of some operations are requests.
pub open spec fn request_count<W>(operations: Seq<Operation<W>>) -> nat
    decreases operations.len(),
{
    if operations.len() == 0 {
        0
    } else {
        let others = request_count(operations.drop_last());
        if operations.last() is Request {
            others + 1
        } else {
            others
        }
    }
}

/// The directory that the first request among some operations goes to, if there is one.
pub open spec fn first_directory<W>(operations: Seq<Operation<W>>) -> Option<Seq<char>>
    decreases operations.len(),
{
    if operations.len() == 0 {
        None
    } else {
        match (first_directory(operations.drop_last()), operations.last()) {
            (Some(directory), _) => Some(directory),
            (None, Operation::Request { primary }) => Some(request_directory(primary)),
            (None, _) => None,
        }
    }
}

/// Requests get one cookie after the other, and nothing else uses up a cookie; replies are looked
/// for where the first request went, wherever the later ones go.
pub proof fn requests_are_numbered<W>(state: HostView<W>, operations: Seq<Operation<W>>)
    ensures
        after_operations(state, operations).next_cookie == nth_cookie(
            state.next_cookie,
            request_count(operations),
        ),
        after_operations(state, operations).eval_path == (if state.eval_path is Some {
            state.eval_path
        } else {
            first_directory(operations)
        }),
    decreases operations.len(),
{
    if operations.len() > 0 {
        requests_are_numbered(state, operations.drop_last());
    }
}

/// Applying a configuration succeeds exactly if the host's reply is a JSON object that says so;
/// the same goes for asking for the terminal's size.
pub proof fn success_is_the_hosts_word(reply: Seq<char>)
    ensures
        apply_outcome(Ok(reply)) is Ok <==> (json_document(reply) matches Ok(members) && succeeded(
            members,
        )),
        size_outcome(Ok(reply)) is Ok <==> (json_document(reply) matches Ok(members) && succeeded(
            members,
        )),
{
}

/// A configuration that is applied through the host reports what the host replied to that very
/// request, and so does a question for the terminal's size, whatever happens before the reply.
pub proof fn applying_reports_the_reply<W>(
    state: HostView<W>,
    primary: bool,
    before: Seq<Operation<W>>,
    reply: String,
    after: Seq<Operation<W>>,
)
    requires
        !any_concerns(after, state.next_cookie),
    ensures
        ({
            let cookie = state.next_cookie;
            let asked = after_operations(after_request(state, primary), before);
            let answered = after_operations(after_continue(asked, cookie, Some(reply)), after);
            &&& fetched(answered, cookie) matches Some(text)
            &&& apply_outcome(Ok(text@)) == apply_conclusion(json_document(reply@))
            &&& size_outcome(Ok(text@)) == size_conclusion(json_document(reply@))
        }),
{
    reply_reaches_its_request(state, primary, before, reply, after);
}

/// Settings that say nothing change nothing; two changes in a row are the one change in which
/// the second has precedence; and a change that is repeated has no further effect.
pub proof fn updates_compose(config: ConfigView, first: Settings, second: Settings)
    ensures
        config_after(
            config,
            Settings {
                echo_input: None,
                line_input: None,
                interrupt_signals: None,
                output_nl_as_nlcr: None,
            },
        ) == config,
        config_after(config_after(config, first), second) == config_after(
            config,
            followed_by(first, second),
        ),
        config_after(config_after(config, first), first) == config_after(config, first),
{
}

/// Raw mode is the absence of line input: to switch it is to set line input to the opposite, it
/// decides which script is sent to the host, and of several switches the last counts.
pub proof fn raw_mode_is_no_line_input(config: ConfigView, raw: bool, before: bool)
    ensures
        config_with_raw_mode(config, raw) == config_after(
            config,
            Settings {
                echo_input: None,
                line_input: Some(!raw),
                interrupt_signals: None,
                output_nl_as_nlcr: None,
            },
        ),
        mode_script(config_with_raw_mode(config, raw).line_input) == (if raw {
            RAW_ON@
        } else {
            RAW_OFF@
        }),
        config_with_raw_mode(config_with_raw_mode(config, before), raw) == config_with_raw_mode(
            config,
            raw,
        ),
{
}

/// What a task gets is the very text that is kept under its cookie, if any is; what is woken is
/// the very waker that is kept under the cookie, and only by a reply.
pub proof fn what_is_kept_is_what_is_given<W>(
    state: HostView<W>,
    results: Map<u32, String>,
    continuations: Map<u32, W>,
    cookie: u32,
    reply: String,
)
    ensures
        state.results is None ==> fetched(state, cookie) is None,
        state.results == Some(results) && results.contains_key(cookie) ==> fetched(state, cookie)
            == Some(results[cookie]),
        state.results == Some(results) && !results.contains_key(cookie) ==> fetched(
            state,
            cookie,
        ) is None,
        state.continuations is None ==> woken(state, cookie, Some(reply)) is None,
        state.continuations == Some(continuations) && continuations.contains_key(cookie) ==> woken(
            state,
            cookie,
            Some(reply),
        ) == Some(continuations[cookie]),
        state.continuations == Some(continuations) && !continuations.contains_key(cookie)
            ==> woken(state, cookie, Some(reply)) is None,
        woken(state, cookie, None) is None,
{
}

/// A map exists from the first request on, and begins empty.
pub proof fn maps_begin_empty<V>(map: Map<u32, V>)
    ensures
        initialized(Some(map)) == map,
        initialized(None::<Map<u32, V>>) == Map::<u32, V>::empty(),
{
}

/// A request moves on to the next cookie, settles where replies are looked for unless that is
/// settled, makes the maps if there are none, and changes nothing that they hold.
pub proof fn requests_change_no_reply<W>(state: HostView<W>, primary: bool)
    ensures
        ({
            let asked = after_request(state, primary);
            &&& state.next_cookie < 0xffff_ffff ==> asked.next_cookie == state.next_cookie + 1
            &&& state.next_cookie == 0xffff_ffff ==> asked.next_cookie == 0
            &&& state.eval_path is Some ==> asked.eval_path == state.eval_path
            &&& state.eval_path is None && primary ==> asked.eval_path == Some("/dev/host/eval"@)
            &&& state.eval_path is None && !primary ==> asked.eval_path == Some("./dev/host/eval"@)
            &&& asked.results is Some
            &&& asked.continuations is Some
            &&& state.results is Some ==> asked.results == state.results
            &&& state.results is None ==> asked.results == Some(Map::<u32, String>::empty())
            &&& state.continuations is Some ==> asked.continuations == state.continuations
            &&& state.continuations is None ==> asked.continuations == Some(Map::<u32, W>::empty())
        }),
{
}

/// A task that asks takes its reply away if it is there, and leaves its waker if it is not; either
/// way nothing under any other cookie changes, and neither does the rest.
pub proof fn asking_takes_or_leaves<W>(state: HostView<W>, cookie: u32, waker: W, other: u32)
    ensures
        ({
            let asked = after_poll(state, cookie, waker);
            let there = state.results is Some && state.results->0.contains_key(cookie);
            &&& asked.next_cookie == state.next_cookie
            &&& asked.eval_path == state.eval_path
            &&& asked.results is Some
            &&& !asked.results->0.contains_key(cookie)
            &&& there ==> asked.continuations == state.continuations
            &&& !there && state.results is Some ==> asked.results == state.results
            &&& !there ==> asked.continuations is Some
            &&& !there ==> asked.continuations->0.contains_key(cookie)
            &&& !there ==> asked.continuations->0[cookie] == waker
            &&& other != cookie ==> {
                &&& asked.results->0.contains_key(other) <==> state.results is Some
                    && state.results->0.contains_key(other)
                &&& state.results is Some && state.results->0.contains_key(other)
                    ==> asked.results->0[other] == state.results->0[other]
                &&& asked.continuations is Some && asked.continuations->0.contains_key(other)
                    <==> state.continuations is Some && state.continuations->0.contains_key(other)
                &&& state.continuations is Some && state.continuations->0.contains_key(other)
                    ==> asked.continuations->0[other] == state.continuations->0[other]
            }
        }),
{
}

/// A call back leaves the reply, word for word, and takes away the waker, in so far as the maps
/// exist; nothing under any other cookie changes, and neither does the rest.
pub proof fn calling_back_leaves_the_reply<W>(
    state: HostView<W>,
    cookie: u32,
    reply: String,
    other: u32,
)
    ensures
        ({
            let answered = after_continue(state, cookie, Some(reply));
            &&& answered.next_cookie == state.next_cookie
            &&& answered.eval_path == state.eval_path
            &&& answered.results is Some <==> state.results is Some
            &&& answered.continuations is Some <==> state.continuations is Some
            &&& state.results is Some ==> {
                &&& answered.results->0.contains_key(cookie)
                &&& answered.results->0[cookie] == reply
                &&& other != cookie ==> answered.results->0.contains_key(other)
                    == state.results->0.contains_key(other)
                &&& other != cookie && state.results->0.contains_key(other)
                    ==> answered.results->0[other] == state.results->0[other]
            }
            &&& state.continuations is Some ==> {
                &&& !answered.continuations->0.contains_key(cookie)
                &&& other != cookie ==> answered.continuations->0.contains_key(other)
                    == state.continuations->0.contains_key(other)
                &&& other != cookie && state.continuations->0.contains_key(other)
                    ==> answered.continuations->0[other] == state.continuations->0[other]
            }
        }),
{
}

/// Applying a configuration comes to what the host's reply says, and to nothing else: an
/// evaluation that fails gives its own message, a reply that is no JSON text gives the parser's
/// message behind `parse eval response: `, and a reply without success gives the host's message,
/// or `unknown`.
pub proof fn applying_comes_to_what_the_host_says(
    evaluated: Result<String, &'static str>,
    members: Map<Seq<char>, MemberView>,
    message: Seq<char>,
)
    ensures
        evaluated matches Err(failure) ==> apply_outcome(evaluated_view(evaluated)) == Err::<
            (),
            Seq<char>,
        >(failure@),
        evaluated matches Ok(text) ==> {
            let outcome = apply_outcome(evaluated_view(evaluated));
            &&& json_document(text@) == Err::<Map<Seq<char>, MemberView>, Seq<char>>(message)
                ==> outcome == Err::<(), Seq<char>>("parse eval response: "@ + message)
            &&& json_document(text@) == Ok::<Map<Seq<char>, MemberView>, Seq<char>>(members) ==> {
                let ok = members.contains_key("ok"@) && members["ok"@] == MemberView::Flag(true);
                &&& ok ==> outcome is Ok
                &&& !ok && members.contains_key("err"@) && members["err"@] == MemberView::Text(
                    message,
                ) ==> outcome == Err::<(), Seq<char>>(message)
                &&& !ok && !(members.contains_key("err"@) && members["err"@] is Text) ==> outcome
                    == Err::<(), Seq<char>>("unknown"@)
            }
        },
{
}

/// The reply that a configuration is applied by is read in the same way once it has been parsed.
pub proof fn parsed_replies_come_to_the_same(
    parsed: Result<Map<Seq<char>, MemberView>, Seq<char>>,
    text: Seq<char>,
)
    requires
        json_document(text) == parsed,
    ensures
        apply_conclusion(parsed) == apply_outcome(Ok(text)),
        size_conclusion(parsed) == size_outcome(Ok(text)),
{
}

/// What a reply that parses, or does not, comes to.
pub proof fn parsed_replies_mean_what_they_say(
    members: Map<Seq<char>, MemberView>,
    message: Seq<char>,
)
    ensures
        apply_conclusion(Err(message)) == Err::<(), Seq<char>>("parse eval response: "@ + message),
        apply_conclusion(Ok(members)) is Ok <==> members.contains_key("ok"@) && members["ok"@]
            == MemberView::Flag(true),
        apply_conclusion(Ok(members)) is Err && members.contains_key("err"@) && members["err"@]
            == MemberView::Text(message) ==> apply_conclusion(Ok(members)) == Err::<(), Seq<char>>(
            message,
        ),
        apply_conclusion(Ok(members)) is Err && !(members.contains_key("err"@)
            && members["err"@] is Text) ==> apply_conclusion(Ok(members)) == Err::<(), Seq<char>>(
            "unknown"@,
        ),
        size_conclusion(Err(message)) == Err::<(u16, u16), Seq<char>>(
            "parse get-size json: "@ + message,
        ),
        size_conclusion(Ok(members)) is Ok <==> members.contains_key("ok"@) && members["ok"@]
            == MemberView::Flag(true),
        size_conclusion(Ok(members)) is Err ==> size_conclusion(Ok(members)) == Err::<
            (u16, u16),
            Seq<char>,
        >("failed to get size"@),
{
}

/// The terminal's size is what the host's reply gives, number by number; an evaluation that fails
/// gives its own message, a reply that is no JSON text gives the parser's message behind
/// `parse get-size json: `, and a reply without success says only that.
pub proof fn size_is_what_the_host_says(
    evaluated: Result<String, &'static str>,
    members: Map<Seq<char>, MemberView>,
    message: Seq<char>,
    cols: u64,
    rows: u64,
)
    ensures
        evaluated matches Err(failure) ==> size_outcome(evaluated_view(evaluated)) == Err::<
            (u16, u16),
            Seq<char>,
        >(failure@),
        evaluated matches Ok(text) ==> {
            let outcome = size_outcome(evaluated_view(evaluated));
            &&& json_document(text@) == Err::<Map<Seq<char>, MemberView>, Seq<char>>(message)
                ==> outcome == Err::<(u16, u16), Seq<char>>("parse get-size json: "@ + message)
            &&& json_document(text@) == Ok::<Map<Seq<char>, MemberView>, Seq<char>>(members) ==> {
                let ok = members.contains_key("ok"@) && members["ok"@] == MemberView::Flag(true);
                &&& !ok ==> outcome == Err::<(u16, u16), Seq<char>>("failed to get size"@)
                &&& ok ==> outcome is Ok
                &&& ok && members.contains_key("cols"@) && members["cols"@] == MemberView::Number(
                    Some(cols),
                ) ==> outcome->Ok_0.0 == cols % 0x1_0000
                &&& ok && !(members.contains_key("cols"@) && members["cols"@] is Number
                    && members["cols"@]->Number_0 is Some) ==> outcome->Ok_0.0 == 80
                &&& ok && members.contains_key("rows"@) && members["rows"@] == MemberView::Number(
                    Some(rows),
                ) ==> outcome->Ok_0.1 == rows % 0x1_0000
                &&& ok && !(members.contains_key("rows"@) && members["rows"@] is Number
                    && members["rows"@]->Number_0 is Some) ==> outcome->Ok_0.1 == 24
            }
        },
{
}

/// A fresh configuration echoes input, hands it over by lines and raises signals, and leaves
/// newlines alone.
pub proof fn fresh_configuration_is_a_plain_terminal()
    ensures
        default_config().echo_input,
        default_config().line_input,
        default_config().interrupt_signals,
        !default_config().output_nl_as_nlcr,
{
}

/// After a change every setting that it names has the value that it gives, and every other one
/// has the value that it had.
pub proof fn named_settings_take_their_value(
    config: ConfigView,
    settings: Settings,
    value: bool,
)
    ensures
        ({
            let changed = config_after(config, settings);
            &&& settings.echo_input == Some(value) ==> changed.echo_input == value
            &&& settings.echo_input is None ==> changed.echo_input == config.echo_input
            &&& settings.line_input == Some(value) ==> changed.line_input == value
            &&& settings.line_input is None ==> changed.line_input == config.line_input
            &&& settings.interrupt_signals == Some(value) ==> changed.interrupt_signals == value
            &&& settings.interrupt_signals is None ==> changed.interrupt_signals
                == config.interrupt_signals
            &&& settings.output_nl_as_nlcr == Some(value) ==> changed.output_nl_as_nlcr == value
            &&& settings.output_nl_as_nlcr is None ==> changed.output_nl_as_nlcr
                == config.output_nl_as_nlcr
        }),
{
}

/// To switch raw mode on or off is to switch line input off or on, and touches nothing else.
pub proof fn raw_mode_touches_line_input_alone(config: ConfigView, raw: bool)
    ensures
        ({
            let switched = config_with_raw_mode(config, raw);
            &&& switched.line_input == !raw
            &&& switched.echo_input == config.echo_input
            &&& switched.interrupt_signals == config.interrupt_signals
            &&& switched.output_nl_as_nlcr == config.output_nl_as_nlcr
        }),
{
}

} // verus!
