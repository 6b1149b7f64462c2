//! What a process signal asks of the daemon.

use vstd::prelude::*;

verus! {

/// SIGTERM/SIGINT ask for a graceful shutdown; SIGHUP for a config reload.
#[derive(Debug, Clone, Copy, PartialEq, Eq, Structural)]
pub enum LifecycleEvent {
    Shutdown,
    ReloadConfig,
}

/// What the daemon does on a signal.
#[derive(Debug, Clone, Copy, PartialEq, Eq, Structural)]
pub enum SignalAction {
    /// Leave the signal loop and shut down.
    Stop,
    /// Put the freshly loaded configuration in place and keep running.
    ReplaceConfig,
    /// Keep the previous configuration (the reload failed) and keep running.
    KeepConfig,
}

/// The daemon's answer to `event`, where `reload_ok` says whether reloading
/// the configuration succeeded (it is only consulted on a reload): a
/// shutdown signal stops the daemon, and a reload replaces the
/// configuration only when the new one loaded, else the previous one stays.
pub fn signal_action(event: LifecycleEvent, reload_ok: bool) -> (r: SignalAction)
    ensures
        event == LifecycleEvent::Shutdown ==> r == SignalAction::Stop,
        event == LifecycleEvent::ReloadConfig ==> r == (if reload_ok {
            SignalAction::ReplaceConfig
        } else {
            SignalAction::KeepConfig
        }),
{
    match event {
        LifecycleEvent::Shutdown => SignalAction::Stop,
        LifecycleEvent::ReloadConfig => if reload_ok {
            SignalAction::ReplaceConfig
        } else {
            SignalAction::KeepConfig
        },
    }
}

} // verus!
