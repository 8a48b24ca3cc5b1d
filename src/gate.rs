use vstd::prelude::*;

verus! {

/// A one-shot signal: once fired it stays fired, and firing it again changes nothing.
pub struct ReadinessGate {
    fired: bool,
}

impl View for ReadinessGate {
    type V = bool;

    /// Whether this signal is open.
    closed spec fn view(&self) -> bool {
        self.fired
    }
}

impl ReadinessGate {
    pub fn new() -> (g: ReadinessGate)
        ensures
            !g@,
    {
        ReadinessGate { fired: false }
    }

    /// Opens this signal; an open one stays as it is.
    pub fn signal_ready(&mut self)
        ensures
            final(self)@,
    {
        self.fired = true;
    }

    /// Whether a waiter may go on: true exactly when this signal is open,
    /// on this call and every later one.
    pub fn wait(&self) -> (proceed: bool)
        ensures
            proceed == self@,
    {
        self.fired
    }
}

} // verus!
