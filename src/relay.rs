//! The decisions of the relay task, which copies bytes from the remote
//! connection into the decoder's input. The caller does the reading and
//! writing, and hands each result to the session.
use vstd::prelude::*;

verus! {

/// Size of the buffer that each read from the connection fills.
pub const RELAY_CHUNK: usize = 8192;

/// Why the relay task stopped. None of these is an error of the session.
#[derive(PartialEq, Eq, Structural, Clone, Copy, Debug)]
pub enum RelayStop {
    /// Reading the connection failed.
    InputReadError,
    /// The connection reported the end of its data.
    InputEof,
    /// Writing to the decoder's input failed.
    OutputWriteError,
}

/// What the caller does next.
#[derive(PartialEq, Eq, Structural, Clone, Copy, Debug)]
pub enum RelayAction {
    /// Write the first `n` bytes that were read to the decoder's input.
    Forward(usize),
    /// Stop the task; the decoder's input is left as it is, not closed.
    Stop(RelayStop),
}

/// The relay task's state: the bytes forwarded so far, and why it stopped
/// once it has.
pub struct RelaySession {
    relayed: u64,
    stopped: Option<RelayStop>,
}

/// What the relay task reports when it is joined.
#[derive(PartialEq, Eq, Structural, Clone, Copy, Debug)]
pub struct RelayOutcome {
    pub relayed: u64,
    pub stop: RelayStop,
}

impl RelaySession {
    /// Bytes written to the decoder's input so far.
    pub closed spec fn relayed_spec(&self) -> nat {
        self.relayed as nat
    }

    /// Why the task stopped, once it has.
    pub closed spec fn stopped_spec(&self) -> Option<RelayStop> {
        self.stopped
    }

    /// A task that has forwarded nothing yet.
    pub fn new() -> (r: RelaySession)
        ensures
            r.relayed_spec() == 0,
            r.stopped_spec() is None,
    {
        RelaySession { relayed: 0, stopped: None }
    }

    /// Bytes written to the decoder's input so far.
    pub fn relayed(&self) -> (r: u64)
        ensures
            r == self.relayed_spec(),
    {
        self.relayed
    }

    /// Why the task stopped, once it has.
    pub fn stopped(&self) -> (r: Option<RelayStop>)
        ensures
            r == self.stopped_spec(),
    {
        self.stopped
    }

    /// Takes the result of one read from the connection: `Some(n)` for `n`
    /// bytes, `None` for a failed read. A failed read or a read of no bytes
    /// stops the task without error; any other read is forwarded whole.
    pub fn on_read(&mut self, read: Option<usize>) -> (a: RelayAction)
        requires
            old(self).stopped_spec() is None,
        ensures
            final(self).relayed_spec() == old(self).relayed_spec(),
            match read {
                None => a == RelayAction::Stop(RelayStop::InputReadError),
                Some(n) => if n == 0 {
                    a == RelayAction::Stop(RelayStop::InputEof)
                } else {
                    a == RelayAction::Forward(n)
                },
            },
            final(self).stopped_spec() == (match a {
                RelayAction::Stop(why) => Some(why),
                RelayAction::Forward(_) => None,
            }),
    {
        let a = match read {
            None => RelayAction::Stop(RelayStop::InputReadError),
            Some(n) => if n == 0 {
                RelayAction::Stop(RelayStop::InputEof)
            } else {
                RelayAction::Forward(n)
            },
        };
        if let RelayAction::Stop(why) = a {
            self.stopped = Some(why);
        }
        a
    }

    /// Takes the result of writing `n` forwarded bytes to the decoder's
    /// input: on success they count as relayed; a failed write stops the task
    /// without error.
    pub fn on_write(&mut self, n: usize, written: bool)
        requires
            old(self).stopped_spec() is None,
            old(self).relayed_spec() + n <= u64::MAX,
        ensures
            written ==> final(self).relayed_spec() == old(self).relayed_spec() + n,
            written ==> final(self).stopped_spec() is None,
            !written ==> final(self).relayed_spec() == old(self).relayed_spec(),
            !written ==> final(self).stopped_spec() == Some(RelayStop::OutputWriteError),
    {
        if written {
            self.relayed = self.relayed + n as u64;
        } else {
            self.stopped = Some(RelayStop::OutputWriteError);
        }
    }

    /// The report of a task that has stopped.
    pub fn outcome(&self) -> (r: RelayOutcome)
        requires
            self.stopped_spec() is Some,
        ensures
            r.relayed == self.relayed_spec(),
            r.stop == self.stopped_spec()->Some_0,
    {
        match self.stopped {
            Some(stop) => RelayOutcome { relayed: self.relayed, stop },
            None => RelayOutcome { relayed: self.relayed, stop: RelayStop::InputEof },
        }
    }
}

} // verus!
