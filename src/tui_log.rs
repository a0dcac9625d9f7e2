//! Logging while a full-screen interface owns the terminal: log lines must
//! not be written then. Whether that is the case is an explicit value handed
//! to the logging layer, not ambient global state.

use vstd::prelude::*;

verus! {

/// Whether a full-screen interface currently owns the terminal.
#[derive(Debug, Clone, Copy, PartialEq, Eq)]
pub struct OutputMode {
    pub tui: bool,
}

impl OutputMode {
    /// Plain terminal output: logging is on.
    pub fn new() -> (r: Self)
        ensures
            !r.tui,
    {
        OutputMode { tui: false }
    }
}

/// Turns full-screen mode on or off.
pub fn set_tui_mode(mode: &mut OutputMode, enabled: bool)
    ensures
        final(mode).tui == enabled,
{
    mode.tui = enabled;
}

/// Whether full-screen mode is on.
pub fn is_tui_mode(mode: &OutputMode) -> (r: bool)
    ensures
        r == mode.tui,
{
    mode.tui
}

/// A logging layer that forwards to `inner` only while no full-screen
/// interface owns the terminal.
#[derive(Debug, Clone)]
pub struct ConditionalStderrLayer<L> {
    pub inner: L,
}

impl<L> ConditionalStderrLayer<L> {
    pub fn new(inner: L) -> (r: Self)
        ensures
            r.inner == inner,
    {
        ConditionalStderrLayer { inner }
    }

    /// Whether an event, span entry or span exit is passed on to `inner`.
    pub fn forwards(&self, mode: &OutputMode) -> (r: bool)
        ensures
            r == !mode.tui,
    {
        !is_tui_mode(mode)
    }
}

} // verus!
