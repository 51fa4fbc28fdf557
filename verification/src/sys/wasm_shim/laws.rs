//! What holds of the watched host's terminal as a whole.

use crate::sys::host::reply::{json_document, succeeded, MemberView};
use crate::sys::host::scripts::{mode_script, RAW_OFF, RAW_ON};
use crate::sys::wasm_shim::terminal::{
    apply_outcome, config_after, default_config, read_outcome, reply_outcome, size_outcome,
    step_after_look, text_view, wait_after_look, Config, WaitStep, WaitView, LOOKS, PAUSE_MILLIS,
};
use crate::terminal::{followed_by, Settings};
use vstd::prelude::*;

verus! {

/// The wait after `n` looks in vain.
pub open spec fn wait_after_misses(wait: WaitView, n: nat) -> WaitView
    decreases n,
{
    if n == 0 {
        wait
    } else {
        wait_after_look(wait_after_misses(wait, (n - 1) as nat), false)
    }
}

/// How long `n` looks in vain make one sleep, in milliseconds.
pub open spec fn slept_after_misses(wait: WaitView, n: nat) -> int
    decreases n,
{
    if n == 0 {
        0
    } else {
        slept_after_misses(wait, (n - 1) as nat) + (match step_after_look(
            wait_after_misses(wait, (n - 1) as nat),
            false,
        ) {
            WaitStep::Sleep(millis) => millis as int,
            _ => 0,
        })
    }
}

proof fn misses_count_down(wait: WaitView, n: nat)
    requires
        n <= wait.looks_left,
    ensures
        wait_after_misses(wait, n) == (WaitView {
            looks_left: (wait.looks_left - n) as u32,
            ..wait
        }),
        slept_after_misses(wait, n) == n * PAUSE_MILLIS,
    decreases n,
{
    if n > 0 {
        misses_count_down(wait, (n - 1) as nat);
        assert(n * PAUSE_MILLIS == (n - 1) * PAUSE_MILLIS + PAUSE_MILLIS) by (nonlinear_arith);
    }
}

/// A wait that has just begun reads a reply that is found at any of the first two hundred looks,
/// sleeping ten milliseconds after each look before; it is over after exactly two hundred looks
/// in vain, which take two seconds of sleep.
pub proof fn wait_is_bounded(wait: WaitView, n: nat)
    requires
        wait.looks_left == LOOKS,
    ensures
        n < 200 ==> wait_after_misses(wait, n).looks_left > 0,
        n < 200 ==> step_after_look(wait_after_misses(wait, n), true) == WaitStep::Read,
        n < 200 ==> step_after_look(wait_after_misses(wait, n), false) == WaitStep::Sleep(10),
        n == 200 ==> wait_after_misses(wait, n).looks_left == 0,
        n == 200 ==> slept_after_misses(wait, n) == 2000,
        forall|found: bool|
            n == 200 ==> #[trigger] step_after_look(wait_after_misses(wait, n), found)
                == WaitStep::GiveUp,
{
    if n <= 200 {
        misses_count_down(wait, n);
    }
}

/// What a wait comes to where `looks` says at which look the reply is found: the first step that
/// is not to sleep, if there is one among these looks.
pub open spec fn wait_comes_to(wait: WaitView, looks: Seq<bool>) -> Option<WaitStep>
    decreases looks.len(),
{
    if wait.looks_left == 0 {
        Some(WaitStep::GiveUp)
    } else if looks.len() == 0 {
        None
    } else {
        match step_after_look(wait, looks.first()) {
            WaitStep::Sleep(_) => wait_comes_to(
                wait_after_look(wait, looks.first()),
                looks.drop_first(),
            ),
            step => Some(step),
        }
    }
}

/// Whether the reply is found at one of the first `n` looks.
pub open spec fn found_within(looks: Seq<bool>, n: int) -> bool {
    exists|i: int| 0 <= i < n && i < looks.len() && #[trigger] looks[i]
}

/// Whenever the reply turns up within the looks that are left, it is read; a wait is given up
/// exactly if all of them are in vain.
pub proof fn reply_is_read_if_it_comes_in_time(wait: WaitView, looks: Seq<bool>)
    requires
        looks.len() >= wait.looks_left,
    ensures
        wait_comes_to(wait, looks) == Some(
            if found_within(looks, wait.looks_left as int) {
                WaitStep::Read
            } else {
                WaitStep::GiveUp
            },
        ),
    decreases looks.len(),
{
    let n = wait.looks_left as int;
    if n > 0 {
        if looks[0] {
            assert(found_within(looks, n));
        } else {
            let rest = looks.drop_first();
            reply_is_read_if_it_comes_in_time(wait_after_look(wait, false), rest);
            if found_within(looks, n) {
                let i = choose|i: int| 0 <= i < n && i < looks.len() && #[trigger] looks[i];
                assert(rest[i - 1]);
            }
            if found_within(rest, n - 1) {
                let i = choose|i: int| 0 <= i < n - 1 && i < rest.len() && #[trigger] rest[i];
                assert(looks[i + 1]);
            }
        }
    }
}

/// Looking never changes where the reply is looked for, and never adds looks.
pub proof fn looks_only_run_out(wait: WaitView, found: bool)
    ensures
        wait_after_look(wait, found).place == wait.place,
        wait_after_look(wait, found).looks_left <= wait.looks_left,
        step_after_look(wait, found) is Sleep ==> wait_after_look(wait, found).looks_left
            < wait.looks_left,
{
}

/// Applying a configuration succeeds exactly if the reply that was read is a JSON object that
/// says so; the same goes for asking for the terminal's size.
pub proof fn success_is_the_hosts_word(reply: Seq<char>)
    ensures
        apply_outcome(read_outcome(Ok(reply))) is Ok <==> (json_document(reply) matches Ok(members)
            && succeeded(members)),
        size_outcome(read_outcome(Ok(reply))) is Ok <==> (json_document(reply) matches Ok(members)
            && succeeded(members)),
{
}

/// Settings that say nothing change nothing; two changes in a row are the one change in which
/// the second has precedence; and a change that is repeated has no further effect.
pub proof fn updates_compose(config: Config, first: Settings, second: Settings)
    ensures
        config_after(
            config,
            Settings {
                echo_input: None,
                line_input: None,
                interrupt_signals: None,
                output_nl_as_nlcr: None,
            },
        ) == config,
        config_after(config_after(config, first), second) == config_after(
            config,
            followed_by(first, second),
        ),
        config_after(config_after(config, first), first) == config_after(config, first),
{
}

/// Raw mode is the absence of line input: to switch it is to set line input to the opposite, and
/// it decides which script is sent to the host.
pub proof fn raw_mode_is_no_line_input(config: Config, raw: bool)
    ensures
        (Config { line_input: !raw, ..config }) == config_after(
            config,
            Settings {
                echo_input: None,
                line_input: Some(!raw),
                interrupt_signals: None,
                output_nl_as_nlcr: None,
            },
        ),
        mode_script((Config { line_input: !raw, ..config }).line_input) == (if raw {
            RAW_ON@
        } else {
            RAW_OFF@
        }),
{
}

/// A reply that could not be read gives the reason behind `read json: `, one that is no JSON text
/// gives the parser's message behind `parse json: `, and any other is passed on as it is.
pub proof fn replies_are_passed_on(
    read: Result<String, String>,
    members: Map<Seq<char>, MemberView>,
    message: Seq<char>,
)
    ensures
        read matches Err(failure) ==> read_outcome(text_view(read)) == Err::<
            Map<Seq<char>, MemberView>,
            Seq<char>,
        >("read json: "@ + failure@),
        read matches Ok(text) ==> {
            &&& json_document(text@) == Err::<Map<Seq<char>, MemberView>, Seq<char>>(message)
                ==> read_outcome(text_view(read)) == Err::<Map<Seq<char>, MemberView>, Seq<char>>(
                "parse json: "@ + message,
            )
            &&& json_document(text@) == Ok::<Map<Seq<char>, MemberView>, Seq<char>>(members)
                ==> read_outcome(text_view(read)) == Ok::<Map<Seq<char>, MemberView>, Seq<char>>(
                members,
            )
        },
        reply_outcome(Err(message)) == Err::<Map<Seq<char>, MemberView>, Seq<char>>(
            "parse json: "@ + message,
        ),
        reply_outcome(Ok(members)) == Ok::<Map<Seq<char>, MemberView>, Seq<char>>(members),
{
}

/// Applying a configuration comes to what the host's reply says, and to nothing else: an
/// evaluation that fails gives its own message, and a reply without success gives the host's
/// message, or `unknown`.
pub proof fn applying_comes_to_what_the_host_says(
    members: Map<Seq<char>, MemberView>,
    message: Seq<char>,
)
    ensures
        apply_outcome(Err(message)) == Err::<(), Seq<char>>(message),
        apply_outcome(Ok(members)) is Ok <==> members.contains_key("ok"@) && members["ok"@]
            == MemberView::Flag(true),
        apply_outcome(Ok(members)) is Err && members.contains_key("err"@) && members["err"@]
            == MemberView::Text(message) ==> apply_outcome(Ok(members)) == Err::<(), Seq<char>>(
            message,
        ),
        apply_outcome(Ok(members)) is Err && !(members.contains_key("err"@) && members["err"@] is Text)
            ==> apply_outcome(Ok(members)) == Err::<(), Seq<char>>("unknown"@),
{
}

/// The terminal's size is what the host's reply gives, number by number; an evaluation that fails
/// gives its own message, and a reply without success says only that.
pub proof fn size_is_what_the_host_says(
    members: Map<Seq<char>, MemberView>,
    message: Seq<char>,
    cols: u64,
    rows: u64,
)
    ensures
        size_outcome(Err(message)) == Err::<(u16, u16), Seq<char>>(message),
        ({
            let outcome = size_outcome(Ok(members));
            let ok = members.contains_key("ok"@) && members["ok"@] == MemberView::Flag(true);
            &&& !ok ==> outcome == Err::<(u16, u16), Seq<char>>("failed to get size"@)
            &&& ok ==> outcome is Ok
            &&& ok && members.contains_key("cols"@) && members["cols"@] == MemberView::Number(
                Some(cols),
            ) ==> outcome->Ok_0.0 == cols % 0x1_0000
            &&& ok && !(members.contains_key("cols"@) && members["cols"@] is Number
                && members["cols"@]->Number_0 is Some) ==> outcome->Ok_0.0 == 80
            &&& ok && members.contains_key("rows"@) && members["rows"@] == MemberView::Number(
                Some(rows),
            ) ==> outcome->Ok_0.1 == rows % 0x1_0000
            &&& ok && !(members.contains_key("rows"@) && members["rows"@] is Number
                && members["rows"@]->Number_0 is Some) ==> outcome->Ok_0.1 == 24
        }),
{
}

/// A look that finds the reply while looks are left has it read and uses up none; one in vain uses
/// up exactly one and is followed by ten milliseconds of sleep; and where none are left, a wait is
/// given up whatever is found.
pub proof fn each_look_counts_once(wait: WaitView, found: bool)
    ensures
        wait.looks_left == 0 ==> step_after_look(wait, found) == WaitStep::GiveUp
            && wait_after_look(wait, found) == wait,
        wait.looks_left > 0 && found ==> step_after_look(wait, found) == WaitStep::Read
            && wait_after_look(wait, found) == wait,
        wait.looks_left > 0 && !found ==> step_after_look(wait, found) == WaitStep::Sleep(10)
            && wait_after_look(wait, found).looks_left == wait.looks_left - 1
            && wait_after_look(wait, found).place == wait.place,
        LOOKS == 200,
        PAUSE_MILLIS == 10,
{
}

/// A fresh configuration echoes input, hands it over by lines and raises signals, and leaves
/// newlines alone.
pub proof fn fresh_configuration_is_a_plain_terminal()
    ensures
        default_config().echo_input,
        default_config().line_input,
        default_config().interrupt_signals,
        !default_config().output_nl_as_nlcr,
{
}

/// After a change every setting that it names has the value that it gives, and every other one
/// has the value that it had.
pub proof fn named_settings_take_their_value(config: Config, settings: Settings, value: bool)
    ensures
        ({
            let changed = config_after(config, settings);
            &&& settings.echo_input == Some(value) ==> changed.echo_input == value
            &&& settings.echo_input is None ==> changed.echo_input == config.echo_input
            &&& settings.line_input == Some(value) ==> changed.line_input == value
            &&& settings.line_input is None ==> changed.line_input == config.line_input
            &&& settings.interrupt_signals == Some(value) ==> changed.interrupt_signals == value
            &&& settings.interrupt_signals is None ==> changed.interrupt_signals
                == config.interrupt_signals
            &&& settings.output_nl_as_nlcr == Some(value) ==> changed.output_nl_as_nlcr == value
            &&& settings.output_nl_as_nlcr is None ==> changed.output_nl_as_nlcr
                == config.output_nl_as_nlcr
        }),
{
}

} // verus!
