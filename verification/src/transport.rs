//! What a transport must be able to do, how it reports that an operation
//! did not go through, and the link that keeps account of what a transport
//! was asked for.
//!
//! Nothing is assumed of an implementation of [`Transport`]. Whatever it
//! returns, the functions that call it classify the outcome and answer for
//! the result.

use vstd::prelude::*;
use crate::establishment::{Action, Event, EventView};

verus! {

/// Why a single bounded operation of a transport did not complete.
#[derive(Clone, Copy, Debug, PartialEq, Eq, Structural)]
pub enum Fault {
    /// The operation's own time bound ran out.
    Timeout,
    /// Anything else the transport reports.
    Other,
}

/// Where a write goes to or a read comes from.
#[derive(Clone, Copy, Debug, PartialEq, Eq, Structural)]
pub enum Target {
    /// The USB endpoint with this address.
    Endpoint(u8),
    /// The serial line itself.
    Port,
}

/// The capability set of a transport: activation, one bounded write, one
/// bounded read. Each call is a single attempt.
pub trait Transport {
    /// Carries out one activation step and reports how it went.
    fn perform(&mut self, action: &Action) -> Event;

    /// Writes `data` to `target`, waiting at most `timeout_ms`, and reports
    /// how many bytes were written.
    fn write(&mut self, target: Target, data: &[u8], timeout_ms: u64) -> Result<usize, Fault>;

    /// Reads at most `capacity` bytes from `target`, waiting at most
    /// `timeout_ms`, and returns the bytes received.
    fn read(&mut self, target: Target, capacity: usize, timeout_ms: u64) -> Result<Vec<u8>, Fault>;
}

/// One operation that a transport was asked for, with what was handed to
/// it and what it reported.
pub enum Operation {
    Setup { action: Action, event: EventView },
    Write { target: Target, data: Seq<u8>, timeout_ms: u64, written: Result<usize, Fault> },
    Read { target: Target, capacity: usize, timeout_ms: u64, received: Result<Seq<u8>, Fault> },
}

/// The bytes of a read outcome as a mathematical value.
pub open spec fn received(outcome: Result<Vec<u8>, Fault>) -> Result<Seq<u8>, Fault> {
    match outcome {
        Ok(bytes) => Ok(bytes@),
        Err(fault) => Err(fault),
    }
}

/// A transport, and the journal of every operation it was asked for since
/// the link was made, oldest first.
///
/// The journal exists in proofs only. The transport is reached through the
/// link alone, so an operation that is not in the journal was not asked for.
pub struct Link<T> {
    transport: T,
    journal: Ghost<Seq<Operation>>,
}

impl<T> View for Link<T> {
    type V = Seq<Operation>;

    closed spec fn view(&self) -> Seq<Operation> {
        self.journal@
    }
}

impl<T> Link<T> {
    /// The transport behind the link, in the state it is in.
    pub closed spec fn transport(&self) -> T {
        self.transport
    }
}

impl<T: Transport> Link<T> {
    /// A link over `transport` that has asked for nothing yet.
    pub fn new(transport: T) -> (link: Self)
        ensures
            link@ == Seq::<Operation>::empty(),
            link.transport() == transport,
    {
        Link { transport, journal: Ghost(Seq::empty()) }
    }

    /// Asks the transport for one activation step.
    pub fn perform(&mut self, action: &Action) -> (event: Event)
        ensures
            final(self)@ == old(self)@.push(Operation::Setup { action: *action, event: event@ }),
    {
        let event = self.transport.perform(action);
        self.journal = Ghost(
            self.journal@.push(Operation::Setup { action: *action, event: event@ }),
        );
        event
    }

    /// Asks the transport for one bounded write.
    pub fn write(&mut self, target: Target, data: &[u8], timeout_ms: u64) -> (written: Result<
        usize,
        Fault,
    >)
        ensures
            final(self)@ == old(self)@.push(
                Operation::Write { target, data: data@, timeout_ms, written },
            ),
    {
        let written = self.transport.write(target, data, timeout_ms);
        self.journal = Ghost(
            self.journal@.push(Operation::Write { target, data: data@, timeout_ms, written }),
        );
        written
    }

    /// Asks the transport for one bounded read.
    pub fn read(&mut self, target: Target, capacity: usize, timeout_ms: u64) -> (outcome: Result<
        Vec<u8>,
        Fault,
    >)
        ensures
            final(self)@ == old(self)@.push(
                Operation::Read { target, capacity, timeout_ms, received: received(outcome) },
            ),
    {
        let outcome = self.transport.read(target, capacity, timeout_ms);
        self.journal = Ghost(
            self.journal@.push(
                Operation::Read { target, capacity, timeout_ms, received: received(outcome) },
            ),
        );
        outcome
    }

    /// Gives the transport back. Its journal ends here.
    pub fn into_transport(self) -> (transport: T)
        ensures
            transport == self.transport(),
    {
        self.transport
    }
}

} // verus!
