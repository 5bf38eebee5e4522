use vstd::prelude::*;

verus! {

/// What the accept loop can be woken by.
#[derive(Debug, Clone, Copy, PartialEq, Eq, Structural)]
pub enum Signal {
    /// The stop signal fired, or the one who held it went away.
    Stop,
    /// The operating system sent an interrupt.
    Interrupt,
    /// A connection was accepted.
    Accepted,
    /// Accepting failed.
    AcceptFailed,
}

/// What the accept loop does about a signal.
#[derive(Debug, Clone, Copy, PartialEq, Eq, Structural)]
pub enum Directive {
    /// Hand the accepted connection to a unit of work of its own and go on
    /// accepting, without waiting for that exchange.
    Dispatch,
    /// Return from serving. Exchanges under way are neither awaited nor
    /// cancelled.
    Return,
}

/// What a serving loop does about `signal`: it goes on for as long as
/// connections are accepted, and returns on the first signal of any other
/// kind. Once it has returned, it returns whatever comes.
pub open spec fn directive(serving: bool, signal: Signal) -> Directive {
    if serving && signal == Signal::Accepted {
        Directive::Dispatch
    } else {
        Directive::Return
    }
}

/// The accept loop of a server.
pub struct AcceptLoop {
    serving: bool,
}

impl AcceptLoop {
    /// Whether the loop still accepts connections.
    pub closed spec fn serving(&self) -> bool {
        self.serving
    }

    /// A loop that is about to accept its first connection.
    pub fn new() -> (accept_loop: AcceptLoop)
        ensures
            accept_loop.serving(),
    {
        AcceptLoop { serving: true }
    }

    /// Whether the loop still accepts connections.
    pub fn is_serving(&self) -> (serving: bool)
        ensures
            serving == self.serving(),
    {
        self.serving
    }

    /// Takes the signal that woke the loop and says what to do about it.
    pub fn react(&mut self, signal: Signal) -> (what: Directive)
        ensures
            what == directive(old(self).serving(), signal),
            final(self).serving() <==> what == Directive::Dispatch,
    {
        if self.serving {
            match signal {
                Signal::Accepted => Directive::Dispatch,
                _ => {
                    self.serving = false;
                    Directive::Return
                },
            }
        } else {
            Directive::Return
        }
    }
}

/// A stop signal makes a serving loop return at once: no connection has to
/// arrive first, and none that arrives later is dispatched. The same holds of
/// an interrupt and of a failure to accept.
pub proof fn lemma_stop_returns(signal: Signal, later: Signal)
    requires
        signal != Signal::Accepted,
    ensures
        directive(true, signal) == Directive::Return,
        directive(false, later) == Directive::Return,
{
}

} // verus!
