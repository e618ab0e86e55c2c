//! The two complete runs: the firmware check of the data-acquisition device
//! over USB, and the identification of the bench multimeter over the serial
//! line. Each establishes a session, performs its exchanges, and ends at
//! the first failure.

use vstd::prelude::*;
use crate::channel::{
    exchange, exchange_verdict, transfers, ChannelError, Reply, ReplyView, Reports, Request,
    RequestView,
};
use crate::command::{Command, FRAME_LEN};
use crate::decoder::{firmware_verdict, verify_firmware, FirmwareVersion};
use crate::error::{DiscoveryError, ProbeError};
use crate::establishment::{
    failure_of, first_stage, lemma_end_is_final, lemma_operations_determine_the_run,
    lemma_operations_in_order, lemma_run_shape, reported, run, setup_operations, Action,
    EventView, Parameters, Progress, Stage, TransportKind,
};
use crate::session::establish_over;
use crate::transport::{Fault, Link, Operation, Transport};

verus! {

/// What the reply to the firmware query amounts to: the expected version,
/// or the reason why the reply does not show it. Silence in place of a
/// reply is a read that timed out.
pub open spec fn firmware_in(reply: ReplyView) -> Result<FirmwareVersion, ProbeError> {
    match reply {
        ReplyView::Silence => Err(
            ProbeError::Channel {
                command: Command::QueryFirmware,
                error: ChannelError::ReadTimeout,
            },
        ),
        ReplyView::Frame(bytes) => match firmware_verdict(
            bytes,
            FRAME_LEN,
            FirmwareVersion::expected(),
        ) {
            Ok(version) => Ok(version),
            Err(error) => Err(ProbeError::Decode(error)),
        },
    }
}

/// Decodes the reply to the firmware query and holds it against the
/// expected version.
pub fn firmware_of_reply(reply: &Reply) -> (result: Result<FirmwareVersion, ProbeError>)
    ensures
        result == firmware_in(reply@),
        result matches Ok(version) ==> version == FirmwareVersion::expected(),
{
    match reply {
        Reply::Silence => Err(
            ProbeError::Channel {
                command: Command::QueryFirmware,
                error: ChannelError::ReadTimeout,
            },
        ),
        Reply::Frame(bytes) => match verify_firmware(
            bytes.as_slice(),
            FRAME_LEN,
            FirmwareVersion::of_supported_device(),
        ) {
            Ok(version) => Ok(version),
            Err(error) => Err(ProbeError::Decode(error)),
        },
    }
}

/// What the reply to the identification query amounts to: the bytes that
/// came back, which are not parsed further. Silence in place of a reply is
/// a read that timed out.
pub open spec fn identification_in(reply: ReplyView) -> Result<Seq<u8>, ProbeError> {
    match reply {
        ReplyView::Silence => Err(
            ProbeError::Channel { command: Command::Identify, error: ChannelError::ReadTimeout },
        ),
        ReplyView::Frame(bytes) => Ok(bytes),
    }
}

/// The identification as a mathematical value.
pub open spec fn identified(result: Result<Vec<u8>, ProbeError>) -> Result<Seq<u8>, ProbeError> {
    match result {
        Ok(bytes) => Ok(bytes@),
        Err(error) => Err(error),
    }
}

/// Takes the identification out of the reply to the identification query.
pub fn identification_of_reply(reply: Reply) -> (result: Result<Vec<u8>, ProbeError>)
    ensures
        identified(result) == identification_in(reply@),
{
    match reply {
        Reply::Silence => Err(
            ProbeError::Channel { command: Command::Identify, error: ChannelError::ReadTimeout },
        ),
        Reply::Frame(bytes) => Ok(bytes),
    }
}

/// The operations of one exchange of `command` in a session with
/// `parameters`.
pub open spec fn exchange_of(parameters: Parameters, command: Command, reports: Reports) -> Seq<
    Operation,
> {
    transfers(
        parameters.write_target(),
        parameters.read_target(),
        RequestView::of(command),
        reports,
    )
}

/// Every operation of a firmware check, given what the transport reports:
/// the steps of establishment up to the one that ends it; in an
/// established session the exchange of the initialisation probe; and after
/// that has succeeded the exchange of the firmware query.
pub open spec fn firmware_check_operations(
    events: Seq<EventView>,
    init: Reports,
    query: Reports,
) -> Seq<Operation> {
    let setup = setup_operations(first_stage(TransportKind::Usb), events);
    match run(first_stage(TransportKind::Usb), events) {
        Progress::Established(parameters) => {
            let probe = exchange_of(parameters, Command::Init, init);
            if exchange_verdict(RequestView::of(Command::Init), init) is Ok {
                setup + probe + exchange_of(parameters, Command::QueryFirmware, query)
            } else {
                setup + probe
            }
        },
        _ => setup,
    }
}

/// What a firmware check yields, given what the transport reports: the
/// error of the first part that fails, else the expected version. An
/// establishment whose reports run out has failed at the stage it waits in.
pub open spec fn firmware_check_verdict(
    events: Seq<EventView>,
    init: Reports,
    query: Reports,
) -> Result<FirmwareVersion, ProbeError> {
    match run(first_stage(TransportKind::Usb), events) {
        Progress::Next(stage) => Err(failure_of(stage)),
        Progress::Failed(error) => Err(error),
        Progress::Established(_) => match exchange_verdict(RequestView::of(Command::Init), init) {
            Err(error) => Err(ProbeError::Channel { command: Command::Init, error }),
            Ok(_) => match exchange_verdict(RequestView::of(Command::QueryFirmware), query) {
                Err(error) => Err(ProbeError::Channel { command: Command::QueryFirmware, error }),
                Ok(reply) => firmware_in(reply),
            },
        },
    }
}

/// Where an exchange leaves the same operations, it has the same result.
pub proof fn lemma_exchange_follows_from_operations(
    parameters: Parameters,
    command: Command,
    reports: Reports,
    other: Reports,
)
    requires
        exchange_of(parameters, command, reports) == exchange_of(parameters, command, other),
    ensures
        exchange_verdict(RequestView::of(command), reports) == exchange_verdict(
            RequestView::of(command),
            other,
        ),
        exchange_of(parameters, command, reports).len() >= 1,
        exchange_of(parameters, command, reports)[0] is Write,
{
}

/// The operations of a run begin with those of establishment, which are
/// setup operations; what follows them, if anything does, begins with a
/// write.
proof fn lemma_setup_comes_first(
    stage: Stage,
    events: Seq<EventView>,
    operations: Seq<Operation>,
)
    requires
        ({
            let setup = setup_operations(stage, events);
            &&& setup.len() <= operations.len()
            &&& operations.take(setup.len() as int) == setup
            &&& operations.len() > setup.len() ==> operations[setup.len() as int] is Write
        }),
    ensures
        forall|i: int|
            0 <= i < setup_operations(stage, events).len() ==> #[trigger] operations[i] is Setup,
{
    let setup = setup_operations(stage, events);
    assert forall|i: int| 0 <= i < setup.len() implies #[trigger] operations[i] is Setup by {
        lemma_operations_in_order(stage, events, i);
    }
}

/// The silence of the initialisation probe is no failure. In an established
/// session, after a complete write of the probe and a read that timed out,
/// the firmware check goes on to the query, and ends as the query does.
pub proof fn lemma_silent_probe_is_success(events: Seq<EventView>, init: Reports, query: Reports)
    requires
        run(first_stage(TransportKind::Usb), events) is Established,
        init.written == Ok::<usize, Fault>(FRAME_LEN),
        init.read == Err::<Seq<u8>, Fault>(Fault::Timeout),
    ensures
        exchange_verdict(RequestView::of(Command::Init), init) == Ok::<ReplyView, ChannelError>(
            ReplyView::Silence,
        ),
        firmware_check_operations(events, init, query) == setup_operations(
            first_stage(TransportKind::Usb),
            events,
        ) + exchange_of(Parameters::of(TransportKind::Usb), Command::Init, init) + exchange_of(
            Parameters::of(TransportKind::Usb),
            Command::QueryFirmware,
            query,
        ),
        firmware_check_verdict(events, init, query) == match exchange_verdict(
            RequestView::of(Command::QueryFirmware),
            query,
        ) {
            Err(error) => Err(ProbeError::Channel { command: Command::QueryFirmware, error }),
            Ok(reply) => firmware_in(reply),
        },
{
    lemma_run_shape(first_stage(TransportKind::Usb), events);
}

/// A firmware check completes on the expected version. In an established
/// session whose initialisation probe went through, a complete write of the
/// query and a response of eight bytes that begins with 1 and 10 yield
/// version 1.10, whatever the other six bytes are.
pub proof fn lemma_expected_firmware_completes(
    events: Seq<EventView>,
    init: Reports,
    query: Reports,
    response: Seq<u8>,
)
    requires
        run(first_stage(TransportKind::Usb), events) is Established,
        exchange_verdict(RequestView::of(Command::Init), init) is Ok,
        query.written == Ok::<usize, Fault>(FRAME_LEN),
        query.read == Ok::<Seq<u8>, Fault>(response),
        response.len() == FRAME_LEN,
        response[0] == 1,
        response[1] == 10,
    ensures
        firmware_check_verdict(events, init, query) == Ok::<FirmwareVersion, ProbeError>(
            FirmwareVersion { major: 1, minor: 10 },
        ),
{
}

/// The journal says it all: two firmware checks that ask for the same
/// operations, each at its end and with no report left over, yield the
/// same result.
pub proof fn lemma_firmware_check_follows_from_operations(
    events: Seq<EventView>,
    init: Reports,
    query: Reports,
    other_events: Seq<EventView>,
    other_init: Reports,
    other_query: Reports,
)
    requires
        !(run(first_stage(TransportKind::Usb), events) is Next),
        !(run(first_stage(TransportKind::Usb), other_events) is Next),
        setup_operations(first_stage(TransportKind::Usb), events).len() == events.len(),
        setup_operations(first_stage(TransportKind::Usb), other_events).len()
            == other_events.len(),
        firmware_check_operations(events, init, query) == firmware_check_operations(
            other_events,
            other_init,
            other_query,
        ),
    ensures
        events == other_events,
        firmware_check_verdict(events, init, query) == firmware_check_verdict(
            other_events,
            other_init,
            other_query,
        ),
{
    let stage = first_stage(TransportKind::Usb);
    let operations = firmware_check_operations(events, init, query);
    let setup = setup_operations(stage, events);
    let other_setup = setup_operations(stage, other_events);
    lemma_run_shape(stage, events);
    lemma_run_shape(stage, other_events);
    assert(operations.take(setup.len() as int) =~= setup);
    assert(operations.take(other_setup.len() as int) =~= other_setup);
    // Both runs are the leading setup operations of the same journal, and
    // what follows them is no setup operation: they are equally long.
    lemma_setup_comes_first(stage, events, operations);
    lemma_setup_comes_first(stage, other_events, operations);
    lemma_operations_determine_the_run(stage, events, other_events);
    if run(stage, events) is Established {
        let parameters = Parameters::of(TransportKind::Usb);
        let probe = exchange_of(parameters, Command::Init, init);
        let other_probe = exchange_of(parameters, Command::Init, other_init);
        let start = setup.len() as int;
        if probe.len() == 2 {
            assert(other_probe[1] == operations[start + 1]);
        }
        lemma_exchange_follows_from_operations(parameters, Command::Init, init, other_init);
        if exchange_verdict(RequestView::of(Command::Init), init) is Ok {
            let asked = exchange_of(parameters, Command::QueryFirmware, query);
            let other_asked = exchange_of(parameters, Command::QueryFirmware, other_query);
            assert(asked =~= operations.skip(start + probe.len()));
            assert(other_asked =~= operations.skip(start + probe.len()));
            lemma_exchange_follows_from_operations(
                parameters,
                Command::QueryFirmware,
                query,
                other_query,
            );
        }
    }
}

/// Checks the firmware of the data-acquisition device behind `link`:
/// establishes a USB session, sends the initialisation probe, whose silence
/// counts as success, then queries the firmware version and holds it
/// against the expected one. The run ends at the first failure.
///
/// The transport decides what is reported. For what it reported, the
/// journal of the link has grown by exactly the operations of
/// [`firmware_check_operations`], and the result is that of
/// [`firmware_check_verdict`]. It is `Ok` only with the expected version.
pub fn check_firmware<T: Transport>(link: &mut Link<T>) -> (result: Result<
    FirmwareVersion,
    ProbeError,
>)
    ensures
        exists|events: Seq<EventView>, init: Reports, query: Reports|
            {
                &&& final(link)@ == old(link)@ + #[trigger] firmware_check_operations(
                    events,
                    init,
                    query,
                )
                &&& result == firmware_check_verdict(events, init, query)
                &&& !(run(first_stage(TransportKind::Usb), events) is Next)
                &&& setup_operations(first_stage(TransportKind::Usb), events).len()
                    == events.len()
            },
        result matches Ok(version) ==> version == FirmwareVersion::expected(),
{
    let ghost unasked = Reports { written: Err(Fault::Other), read: Err(Fault::Other) };
    let parameters = match establish_over(link, TransportKind::Usb) {
        Ok(parameters) => parameters,
        Err(error) => {
            proof {
                let events = reported(link@.skip(old(link)@.len() as int));
                assert(link@ == old(link)@ + firmware_check_operations(events, unasked, unasked));
            }
            return Err(error);
        },
    };
    let ghost events = reported(link@.skip(old(link)@.len() as int));
    let ghost established = link@;
    let (write_to, read_from) = parameters.targets();
    let init = Request::for_command(Command::Init);
    let probed = exchange(link, write_to, read_from, &init);
    let ghost first = link@.skip(established.len() as int);
    let ghost init_reports = Reports { written: first[0]->written, read: first.last()->received };
    if let Err(error) = probed {
        proof {
            assert(link@ =~= old(link)@ + firmware_check_operations(events, init_reports, unasked));
        }
        return Err(ProbeError::Channel { command: Command::Init, error });
    }
    let ghost probed_link = link@;
    let query = Request::for_command(Command::QueryFirmware);
    let answer = exchange(link, write_to, read_from, &query);
    proof {
        let second = link@.skip(probed_link.len() as int);
        let query_reports = Reports { written: second[0]->written, read: second.last()->received };
        assert(link@ =~= old(link)@ + firmware_check_operations(
            events,
            init_reports,
            query_reports,
        ));
    }
    match answer {
        Ok(reply) => firmware_of_reply(&reply),
        Err(error) => Err(ProbeError::Channel { command: Command::QueryFirmware, error }),
    }
}

/// Every operation of an identification, given what the transport reports:
/// the steps of establishment up to the one that ends it, and in an
/// established session the exchange of the identification query.
pub open spec fn identification_operations(events: Seq<EventView>, query: Reports) -> Seq<
    Operation,
> {
    let setup = setup_operations(first_stage(TransportKind::Serial), events);
    match run(first_stage(TransportKind::Serial), events) {
        Progress::Established(parameters) => setup + exchange_of(
            parameters,
            Command::Identify,
            query,
        ),
        _ => setup,
    }
}

/// What an identification yields, given what the transport reports: the
/// error of the first part that fails, else the bytes that came back.
pub open spec fn identification_verdict(events: Seq<EventView>, query: Reports) -> Result<
    Seq<u8>,
    ProbeError,
> {
    match run(first_stage(TransportKind::Serial), events) {
        Progress::Next(stage) => Err(failure_of(stage)),
        Progress::Failed(error) => Err(error),
        Progress::Established(_) => match exchange_verdict(
            RequestView::of(Command::Identify),
            query,
        ) {
            Err(error) => Err(ProbeError::Channel { command: Command::Identify, error }),
            Ok(reply) => identification_in(reply),
        },
    }
}

/// A port that cannot be opened ends the identification at once: the
/// result is `PortUnavailable`, the attempt to open the port is the only
/// operation, and no line configuration is attempted.
pub proof fn lemma_unopened_port_ends_identification(events: Seq<EventView>, query: Reports)
    requires
        events.len() > 0,
        !(events[0] is Done),
    ensures
        identification_verdict(events, query) == Err::<Seq<u8>, ProbeError>(
            ProbeError::Discovery(DiscoveryError::PortUnavailable),
        ),
        identification_operations(events, query) == seq![
            Operation::Setup { action: Action::OpenPort, event: events[0] },
        ],
{
    let opening = seq![events[0]];
    assert(setup_operations(Stage::OpenPort, opening.drop_last()) =~= Seq::<Operation>::empty());
    assert(setup_operations(Stage::OpenPort, opening) =~= seq![
        Operation::Setup { action: Action::OpenPort, event: events[0] },
    ]);
    lemma_end_is_final(Stage::OpenPort, opening, events.skip(1));
    assert(opening + events.skip(1) =~= events);
}

/// The journal says it all: two identifications that ask for the same
/// operations, each at its end and with no report left over, yield the
/// same result.
pub proof fn lemma_identification_follows_from_operations(
    events: Seq<EventView>,
    query: Reports,
    other_events: Seq<EventView>,
    other_query: Reports,
)
    requires
        !(run(first_stage(TransportKind::Serial), events) is Next),
        !(run(first_stage(TransportKind::Serial), other_events) is Next),
        setup_operations(first_stage(TransportKind::Serial), events).len() == events.len(),
        setup_operations(first_stage(TransportKind::Serial), other_events).len()
            == other_events.len(),
        identification_operations(events, query) == identification_operations(
            other_events,
            other_query,
        ),
    ensures
        events == other_events,
        identification_verdict(events, query) == identification_verdict(
            other_events,
            other_query,
        ),
{
    let stage = first_stage(TransportKind::Serial);
    let operations = identification_operations(events, query);
    let setup = setup_operations(stage, events);
    let other_setup = setup_operations(stage, other_events);
    lemma_run_shape(stage, events);
    lemma_run_shape(stage, other_events);
    assert(operations.take(setup.len() as int) =~= setup);
    assert(operations.take(other_setup.len() as int) =~= other_setup);
    // Both runs are the leading setup operations of the same journal, and
    // what follows them is no setup operation: they are equally long.
    lemma_setup_comes_first(stage, events, operations);
    lemma_setup_comes_first(stage, other_events, operations);
    lemma_operations_determine_the_run(stage, events, other_events);
    if run(stage, events) is Established {
        let parameters = Parameters::of(TransportKind::Serial);
        let other_exchanged = exchange_of(parameters, Command::Identify, other_query);
        assert(other_exchanged =~= operations.skip(setup.len() as int));
        lemma_exchange_follows_from_operations(parameters, Command::Identify, query, other_query);
    }
}

/// Talks to the bench multimeter behind `link`: establishes a serial
/// session, sends the identification query and returns what came back, at
/// most 255 bytes, unparsed.
///
/// The transport decides what is reported. For what it reported, the
/// journal of the link has grown by exactly the operations of
/// [`identification_operations`], and the result is that of
/// [`identification_verdict`].
pub fn interact<T: Transport>(link: &mut Link<T>) -> (result: Result<Vec<u8>, ProbeError>)
    ensures
        exists|events: Seq<EventView>, query: Reports|
            {
                &&& final(link)@ == old(link)@ + #[trigger] identification_operations(
                    events,
                    query,
                )
                &&& identified(result) == identification_verdict(events, query)
                &&& !(run(first_stage(TransportKind::Serial), events) is Next)
                &&& setup_operations(first_stage(TransportKind::Serial), events).len()
                    == events.len()
            },
{
    let ghost unasked = Reports { written: Err(Fault::Other), read: Err(Fault::Other) };
    let parameters = match establish_over(link, TransportKind::Serial) {
        Ok(parameters) => parameters,
        Err(error) => {
            proof {
                let events = reported(link@.skip(old(link)@.len() as int));
                assert(link@ == old(link)@ + identification_operations(events, unasked));
            }
            return Err(error);
        },
    };
    let ghost events = reported(link@.skip(old(link)@.len() as int));
    let ghost established = link@;
    let (write_to, read_from) = parameters.targets();
    let identify = Request::for_command(Command::Identify);
    let answer = exchange(link, write_to, read_from, &identify);
    proof {
        let added = link@.skip(established.len() as int);
        let reports = Reports { written: added[0]->written, read: added.last()->received };
        assert(link@ =~= old(link)@ + identification_operations(events, reports));
    }
    match answer {
        Ok(reply) => identification_of_reply(reply),
        Err(error) => Err(ProbeError::Channel { command: Command::Identify, error }),
    }
}

} // verus!
