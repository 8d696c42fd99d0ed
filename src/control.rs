//! Start and stop of the one proxy instance a process may run.
use vstd::prelude::*;

verus! {

/// Why a start was refused.
#[derive(Debug, Clone, Copy, PartialEq, Eq, Structural)]
pub enum ControlError {
    /// A proxy is running already; it must be stopped first.
    AlreadyRunning,
}

impl ControlError {
    /// The message shown to the user.
    pub fn message(&self) -> (r: String)
        ensures
            r@ == "Proxy already running"@,
    {
        "Proxy already running".to_string()
    }
}

/// Whether the proxy instance runs.
pub struct ProxyControl {
    running: bool,
}

impl ProxyControl {
    pub closed spec fn is_running(&self) -> bool {
        self.running
    }

    /// No proxy runs.
    pub fn new() -> (r: Self)
        ensures
            !r.is_running(),
    {
        ProxyControl { running: false }
    }

    /// Whether a proxy runs.
    pub fn running(&self) -> (r: bool)
        ensures
            r == self.is_running(),
    {
        self.running
    }

    /// Marks the proxy as started on `port`, or refuses where one runs
    /// already; a refusal changes nothing.
    pub fn start(&mut self, port: u16) -> (r: Result<u16, ControlError>)
        ensures
            old(self).is_running() ==> r == Err::<u16, ControlError>(ControlError::AlreadyRunning)
                && final(self).is_running(),
            !old(self).is_running() ==> r == Ok::<u16, ControlError>(port) && final(self).is_running(),
    {
        if self.running {
            Err(ControlError::AlreadyRunning)
        } else {
            self.running = true;
            Ok(port)
        }
    }

    /// Marks the proxy as stopped; stopping a stopped proxy is no error.
    /// Returns whether one was running, that is whether it must be told to
    /// shut down.
    pub fn stop(&mut self) -> (r: bool)
        ensures
            r == old(self).is_running(),
            !final(self).is_running(),
    {
        let was = self.running;
        self.running = false;
        was
    }
}

} // verus!
