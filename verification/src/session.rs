//! Sessions: establishment carried out over a link, and the session that
//! stands at the end of it.

use vstd::prelude::*;
use crate::channel::{
    exchange, exchange_verdict, transfers, viewed, ChannelError, Reply, Reports, Request,
};
use crate::device::EndpointPair;
use crate::error::ProbeError;
use crate::establishment::{
    action_for, advance, begin, concluded, first_stage, lemma_run_shape, lemma_steps_in_order,
    reported, run, setup_operations, steps_left, EventView, Parameters, Progress, TransportKind,
};
use crate::transport::{Link, Operation, Transport};

verus! {

/// Establishes a session over `link`: asks for each step in turn and stops
/// at the first that fails.
///
/// The journal of the link grows by exactly the operations of the run, each
/// with the action of its stage. The transport decides what is reported of
/// each; the result is what [`run`] makes of the reports.
pub fn establish_over<T: Transport>(link: &mut Link<T>, kind: TransportKind) -> (result: Result<
    Parameters,
    ProbeError,
>)
    ensures
        ({
            let added = final(link)@.skip(old(link)@.len() as int);
            &&& final(link)@ == old(link)@ + added
            &&& added == setup_operations(first_stage(kind), reported(added))
            &&& run(first_stage(kind), reported(added)) == concluded(result)
        }),
{
    let mut stage = begin(kind);
    let ghost mut events: Seq<EventView> = Seq::empty();
    loop
        invariant
            run(first_stage(kind), events) == Progress::Next(stage),
            link@ == old(link)@ + setup_operations(first_stage(kind), events),
            reported(setup_operations(first_stage(kind), events)) == events,
        decreases steps_left(stage),
    {
        let action = action_for(stage);
        let event = link.perform(&action);
        let progress = advance(stage, &event);
        proof {
            lemma_steps_in_order(stage, event@);
            let extended = events.push(event@);
            assert(extended.drop_last() =~= events);
            assert(reported(setup_operations(first_stage(kind), extended)) =~= extended);
            assert(link@.skip(old(link)@.len() as int) =~= setup_operations(
                first_stage(kind),
                extended,
            ));
            events = extended;
        }
        match progress {
            Progress::Next(next) => {
                stage = next;
            },
            Progress::Established(parameters) => {
                return Ok(parameters);
            },
            Progress::Failed(error) => {
                return Err(error);
            },
        }
    }
}

/// An established connection: the link, owned for as long as the session
/// lives, and the parameters that establishment settled on.
///
/// There is no way to a session but [`Session::establish`], so a session
/// that exists has been validated: its parameters are those of its kind of
/// link.
pub struct Session<T> {
    link: Link<T>,
    settled: Settled,
}

/// Parameters that establishment has settled on. Every value of this type
/// holds validated ones.
struct Settled {
    parameters: Parameters,
}

impl Settled {
    #[verifier::type_invariant]
    spec fn well_formed(self) -> bool {
        self.parameters.validated()
    }
}

/// An establishment that failed: the error, and the link as the failure
/// left it. No session exists; dropping the link releases the transport.
pub struct Rejected<T> {
    pub error: ProbeError,
    pub link: Link<T>,
}

impl<T> View for Session<T> {
    type V = Parameters;

    closed spec fn view(&self) -> Parameters {
        self.settled.parameters
    }
}

impl<T> Session<T> {
    /// Every operation that the session's link has asked for, oldest first.
    pub closed spec fn journal(&self) -> Seq<Operation> {
        self.link@
    }

    /// The transport behind the session's link, in the state it is in.
    pub closed spec fn transport(&self) -> T {
        self.link.transport()
    }
}

/// The journal that an attempt to establish a session leaves behind: that
/// of the session, or that of the link that comes back with the failure.
pub open spec fn journal_after<T>(result: Result<Session<T>, Rejected<T>>) -> Seq<Operation> {
    match result {
        Ok(session) => session.journal(),
        Err(rejected) => rejected.link@,
    }
}

/// The end of an attempt to establish a session as a stand of progress.
pub open spec fn attempted<T>(result: Result<Session<T>, Rejected<T>>) -> Progress {
    match result {
        Ok(session) => Progress::Established(session@),
        Err(rejected) => Progress::Failed(rejected.error),
    }
}

impl<T: Transport> Session<T> {
    /// Establishes a session over `link`, which is owned from here on.
    /// Where establishment fails no session exists, and the link comes back
    /// with the error.
    ///
    /// The journal grows by exactly the operations of the run, and the
    /// outcome is what [`run`] makes of the reports, as for
    /// [`establish_over`]. A session that comes out has the parameters of
    /// its kind of link.
    pub fn establish(link: Link<T>, kind: TransportKind) -> (result: Result<
        Session<T>,
        Rejected<T>,
    >)
        ensures
            ({
                let added = journal_after(result).skip(link@.len() as int);
                &&& journal_after(result) == link@ + added
                &&& added == setup_operations(first_stage(kind), reported(added))
                &&& run(first_stage(kind), reported(added)) == attempted(result)
            }),
            result matches Ok(session) ==> session@ == Parameters::of(kind),
    {
        let ghost before = link@;
        let mut link = link;
        let result = establish_over(&mut link, kind);
        proof {
            lemma_run_shape(first_stage(kind), reported(link@.skip(before.len() as int)));
        }
        match result {
            Ok(parameters) => Ok(Session { link, settled: Settled { parameters } }),
            Err(error) => Err(Rejected { error, link }),
        }
    }

    /// The parameters that establishment settled on.
    pub fn parameters(&self) -> (parameters: Parameters)
        ensures
            parameters == self@,
            parameters.validated(),
    {
        proof {
            use_type_invariant(&self.settled);
        }
        self.settled.parameters
    }

    /// The validated endpoint pair of a USB session.
    pub fn endpoints(&self) -> (endpoints: Option<EndpointPair>)
        ensures
            self@ is Usb ==> endpoints == Some(EndpointPair::expected()),
            self@ is Serial ==> endpoints is None,
    {
        proof {
            use_type_invariant(&self.settled);
        }
        match self.settled.parameters {
            Parameters::Usb { endpoints } => Some(endpoints),
            Parameters::Serial { .. } => None,
        }
    }

    /// Performs one exchange over the session's link: over USB the command
    /// goes to the validated write endpoint and the response comes from the
    /// validated read endpoint; over the serial line both use the port.
    /// A failure ends the exchange, not the session. See [`exchange`] for
    /// the rest.
    pub fn exchange(&mut self, request: &Request) -> (result: Result<Reply, ChannelError>)
        ensures
            final(self)@ == old(self)@,
            ({
                let added = final(self).journal().skip(old(self).journal().len() as int);
                let reports = Reports { written: added[0]->written, read: added.last()->received };
                &&& final(self).journal() == old(self).journal() + added
                &&& added == transfers(
                    old(self)@.write_target(),
                    old(self)@.read_target(),
                    request@,
                    reports,
                )
                &&& viewed(result) == exchange_verdict(request@, reports)
            }),
    {
        let (write_to, read_from) = self.settled.parameters.targets();
        exchange(&mut self.link, write_to, read_from, request)
    }

    /// Ends the session and hands the link back, to be released or to
    /// establish anew.
    pub fn close(self) -> (link: Link<T>)
        ensures
            link@ == self.journal(),
            link.transport() == self.transport(),
    {
        self.link
    }
}

} // verus!
