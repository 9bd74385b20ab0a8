use vstd::prelude::*;

use crate::errors::AppError;

verus! {

/// A process-termination request the portal listens for.
#[derive(Clone, Copy, Debug, PartialEq, Eq, Structural)]
pub enum ExitSignal {
    Interrupt,
    Quit,
    Terminate,
    Hangup,
}

/// The signals the portal masks on the main thread and watches for: on any
/// one of them the watcher sends a single `Exit` command.
pub fn exit_signals() -> (r: Vec<ExitSignal>)
    ensures
        r@ =~= seq![
            ExitSignal::Interrupt,
            ExitSignal::Quit,
            ExitSignal::Terminate,
            ExitSignal::Hangup,
        ],
{
    let mut r: Vec<ExitSignal> = Vec::new();
    r.push(ExitSignal::Interrupt);
    r.push(ExitSignal::Quit);
    r.push(ExitSignal::Terminate);
    r.push(ExitSignal::Hangup);
    r
}

/// Relies on nix's `SigSet::thread_block` (and `SigSet::empty` / `add` to
/// build its argument): adds the given signals to the calling thread's
/// signal mask, which threads started afterwards inherit.  The underlying
/// `pthread_sigmask` call fails only on invalid arguments, but nothing is
/// promised of the outcome here.
#[verifier::external_body]
fn mask_signals(signals: &Vec<ExitSignal>) -> (r: Result<(), String>) {
    let mut mask = nix::sys::signal::SigSet::empty();
    for s in signals.iter() {
        mask.add(
            match s {
                ExitSignal::Interrupt => nix::sys::signal::Signal::SIGINT,
                ExitSignal::Quit => nix::sys::signal::Signal::SIGQUIT,
                ExitSignal::Terminate => nix::sys::signal::Signal::SIGTERM,
                ExitSignal::Hangup => nix::sys::signal::Signal::SIGHUP,
            },
        );
    }
    mask.thread_block().map_err(|e| e.to_string())
}

/// Block the exit signals on the calling thread before any worker starts,
/// so that only the signal watcher observes them and converts them into
/// orchestrator events.  A failure is reported as `BlockExitSignals` with
/// the reason the system gave.
pub fn block_exit_signals() -> (r: Result<(), AppError>)
    ensures
        r matches Err(e) ==> e is BlockExitSignals,
{
    let signals = exit_signals();
    match mask_signals(&signals) {
        Ok(()) => Ok(()),
        Err(msg) => Err(AppError::BlockExitSignals(msg)),
    }
}

} // verus!
