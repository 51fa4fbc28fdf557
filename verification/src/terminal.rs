//! Terminal settings, independent of the platform.

use vstd::prelude::*;

verus! {

/// A change to a terminal's configuration. A setting that is absent stays as it is.
#[derive(Clone, Copy, Debug, PartialEq, Eq, Structural)]
pub struct Settings {
    /// Whether input is echoed.
    pub echo_input: Option<bool>,
    /// Whether input is handed over line by line.
    pub line_input: Option<bool>,
    /// Whether control characters raise signals.
    pub interrupt_signals: Option<bool>,
    /// Whether a newline in the output also returns the carriage.
    pub output_nl_as_nlcr: Option<bool>,
}

/// `setting` where it is present, else `current`.
pub open spec fn updated(current: bool, setting: Option<bool>) -> bool {
    match setting {
        Some(value) => value,
        None => current,
    }
}

/// The change that has the effect of `first` followed by `second`.
pub open spec fn followed_by(first: Settings, second: Settings) -> Settings {
    Settings {
        echo_input: if second.echo_input is Some { second.echo_input } else { first.echo_input },
        line_input: if second.line_input is Some { second.line_input } else { first.line_input },
        interrupt_signals: if second.interrupt_signals is Some {
            second.interrupt_signals
        } else {
            first.interrupt_signals
        },
        output_nl_as_nlcr: if second.output_nl_as_nlcr is Some {
            second.output_nl_as_nlcr
        } else {
            first.output_nl_as_nlcr
        },
    }
}

} // verus!
