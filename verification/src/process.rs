//! The top-level cooperative loop's decisions.
//!
//! The loop itself waits on three wakeup sources — SIGTERM, SIGINT and the
//! configuration-change notification — with no fixed priority beyond
//! first-ready-wins. Waiting is the unverified shell's work; what each
//! wakeup means is decided here. A signal is terminal: the loop exits within
//! that iteration and the shell performs exactly one final `stop` to drain
//! before the process ends. A configuration change is not: the shell
//! rebuilds the configuration, the state and the router, hands them to
//! `reload`, and keeps looping.

use vstd::prelude::*;

verus! {

/// A wakeup of the select loop.
#[derive(PartialEq, Eq, Structural, Clone, Copy, Debug)]
pub enum ProcessEvent {
    /// The OS asked the process to terminate.
    SigTerm,
    /// The user interrupted the process.
    SigInt,
    /// The configuration file's content changed.
    ConfigChanged,
}

/// What the loop does with a wakeup.
#[derive(PartialEq, Eq, Structural, Clone, Copy, Debug)]
pub enum LoopDirective {
    /// Leave the loop now; drain the server once, then exit the process.
    ExitAndStop,
    /// Reload the supervisor from a fresh configuration and keep looping.
    ReloadAndContinue,
}

/// Decides one iteration of the select loop. Signals, and only signals, end
/// the loop.
pub fn dispatch(event: &ProcessEvent) -> (d: LoopDirective)
    ensures
        d is ExitAndStop <==> (event is SigTerm || event is SigInt),
        d is ReloadAndContinue <==> event is ConfigChanged,
{
    match event {
        ProcessEvent::SigTerm => LoopDirective::ExitAndStop,
        ProcessEvent::SigInt => LoopDirective::ExitAndStop,
        ProcessEvent::ConfigChanged => LoopDirective::ReloadAndContinue,
    }
}

} // verus!
