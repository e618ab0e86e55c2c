//! The rule of session establishment: the activation steps in their fixed
//! order, and what each report of the transport leads to.
//!
//! The steps are decided here and carried out elsewhere. [`advance`] is the
//! whole rule: from the stage that was asked for and the event that came
//! back to what happens next. Any failure is final.

use vstd::prelude::*;
use crate::channel::SERIAL_TIMEOUT_MS;
use crate::device::{DeviceIdentity, EndpointPair, CONFIGURATION, INTERFACE};
use crate::error::{DiscoveryError, ProbeError, SessionError};
use crate::line::LineSettings;
use crate::topology::{DeviceTopology, TopologyView};
use crate::transport::{Operation, Target};
use crate::validator::{conforms, validate_topology, validation};

verus! {

/// The kind of link a session runs over.
#[derive(Clone, Copy, Debug, PartialEq, Eq, Structural)]
pub enum TransportKind {
    /// USB interrupt endpoints.
    Usb,
    /// An asynchronous serial line.
    Serial,
}

/// The steps of establishment. The first nine make a USB session ready, in
/// this order; the last three a serial one.
#[derive(Clone, Copy, Debug, PartialEq, Eq, Structural)]
pub enum Stage {
    Enumerate,
    Open,
    Reset,
    AutoDetach,
    KernelDriverQuery,
    SelectConfiguration,
    ConfirmConfiguration,
    ClaimInterface,
    ReadTopology,
    OpenPort,
    ConfigureLine,
    SetTimeout,
}

/// What the transport is asked to do at a stage.
#[derive(Clone, Copy, Debug, PartialEq, Eq, Structural)]
pub enum Action {
    /// Count the attached devices.
    EnumerateDevices,
    /// Find the device with this identity and open it.
    OpenDevice { identity: DeviceIdentity },
    /// Reset the opened device.
    ResetDevice,
    /// Have a bound kernel driver detached whenever an interface is claimed.
    SetAutoDetachKernelDriver { enabled: bool },
    /// Report whether a kernel driver is active on the interface.
    QueryKernelDriver { interface: u8 },
    /// Make this configuration the active one.
    SetActiveConfiguration { configuration: u8 },
    /// Report which configuration is active.
    ReadActiveConfiguration,
    /// Claim the interface for this session alone.
    ClaimInterface { interface: u8 },
    /// Report the device's descriptor tree.
    ReadTopology,
    /// Open the serial port.
    OpenPort,
    /// Apply all of these line settings, or none.
    ConfigureLine { settings: LineSettings },
    /// Bound every operation on the port by this many milliseconds.
    SetTimeout { timeout_ms: u64 },
}

/// What the transport reports of an action.
#[derive(Clone, Debug, PartialEq, Eq)]
pub enum Event {
    /// The action was carried out and has nothing to report.
    Done,
    /// The action could not be carried out.
    Failed,
    /// So many devices are attached.
    Devices { count: usize },
    /// Whether a kernel driver is active on the interface.
    KernelDriver { active: bool },
    /// The configuration with this index is active.
    ActiveConfiguration { index: u8 },
    /// The device's descriptor tree.
    Topology { topology: DeviceTopology },
}

/// An event as a mathematical value.
pub enum EventView {
    Done,
    Failed,
    Devices { count: usize },
    KernelDriver { active: bool },
    ActiveConfiguration { index: u8 },
    Topology { topology: TopologyView },
}

impl View for Event {
    type V = EventView;

    open spec fn view(&self) -> EventView {
        match self {
            Event::Done => EventView::Done,
            Event::Failed => EventView::Failed,
            Event::Devices { count } => EventView::Devices { count: *count },
            Event::KernelDriver { active } => EventView::KernelDriver { active: *active },
            Event::ActiveConfiguration { index } => EventView::ActiveConfiguration {
                index: *index,
            },
            Event::Topology { topology } => EventView::Topology { topology: topology@ },
        }
    }
}

/// What a session has settled on once it is established.
#[derive(Clone, Copy, Debug, PartialEq, Eq, Structural)]
pub enum Parameters {
    /// The validated endpoints of a USB session.
    Usb { endpoints: EndpointPair },
    /// The line settings and time bound of a serial session.
    Serial { settings: LineSettings, timeout_ms: u64 },
}

impl Parameters {
    /// The one set of parameters that establishment over `kind` can end in.
    pub open spec fn of(kind: TransportKind) -> Parameters {
        match kind {
            TransportKind::Usb => Parameters::Usb { endpoints: EndpointPair::expected() },
            TransportKind::Serial => Parameters::Serial {
                settings: LineSettings::standard(),
                timeout_ms: SERIAL_TIMEOUT_MS,
            },
        }
    }

    /// Whether these are the parameters of an established session.
    pub open spec fn validated(self) -> bool {
        self == Parameters::of(TransportKind::Usb) || self == Parameters::of(
            TransportKind::Serial,
        )
    }

    /// Where commands are written to.
    pub open spec fn write_target(self) -> Target {
        match self {
            Parameters::Usb { endpoints } => Target::Endpoint(endpoints.write_address),
            Parameters::Serial { .. } => Target::Port,
        }
    }

    /// Where responses are read from.
    pub open spec fn read_target(self) -> Target {
        match self {
            Parameters::Usb { endpoints } => Target::Endpoint(endpoints.read_address),
            Parameters::Serial { .. } => Target::Port,
        }
    }

    /// Where commands are written to and where responses are read from, in
    /// this order: over USB the two endpoints, over the serial line the port.
    pub fn targets(self) -> (targets: (Target, Target))
        ensures
            targets == (self.write_target(), self.read_target()),
    {
        match self {
            Parameters::Usb { endpoints } => (
                Target::Endpoint(endpoints.write_address),
                Target::Endpoint(endpoints.read_address),
            ),
            Parameters::Serial { .. } => (Target::Port, Target::Port),
        }
    }
}

/// Where establishment stands after an event.
#[derive(Clone, Copy, Debug, PartialEq, Eq, Structural)]
pub enum Progress {
    /// The step succeeded; this stage is next.
    Next(Stage),
    /// The last step succeeded; the session is ready.
    Established(Parameters),
    /// The step failed, and establishment with it.
    Failed(ProbeError),
}

/// The stage that establishment over `kind` begins with.
pub open spec fn first_stage(kind: TransportKind) -> Stage {
    match kind {
        TransportKind::Usb => Stage::Enumerate,
        TransportKind::Serial => Stage::OpenPort,
    }
}

/// The stage that follows `stage` when its step succeeds, if any does.
pub open spec fn successor(stage: Stage) -> Option<Stage> {
    match stage {
        Stage::Enumerate => Some(Stage::Open),
        Stage::Open => Some(Stage::Reset),
        Stage::Reset => Some(Stage::AutoDetach),
        Stage::AutoDetach => Some(Stage::KernelDriverQuery),
        Stage::KernelDriverQuery => Some(Stage::SelectConfiguration),
        Stage::SelectConfiguration => Some(Stage::ConfirmConfiguration),
        Stage::ConfirmConfiguration => Some(Stage::ClaimInterface),
        Stage::ClaimInterface => Some(Stage::ReadTopology),
        Stage::ReadTopology => None,
        Stage::OpenPort => Some(Stage::ConfigureLine),
        Stage::ConfigureLine => Some(Stage::SetTimeout),
        Stage::SetTimeout => None,
    }
}

/// How many steps are left from `stage` on, itself included.
pub open spec fn steps_left(stage: Stage) -> nat {
    match stage {
        Stage::Enumerate => 9,
        Stage::Open => 8,
        Stage::Reset => 7,
        Stage::AutoDetach => 6,
        Stage::KernelDriverQuery => 5,
        Stage::SelectConfiguration => 4,
        Stage::ConfirmConfiguration => 3,
        Stage::ClaimInterface => 2,
        Stage::ReadTopology => 1,
        Stage::OpenPort => 3,
        Stage::ConfigureLine => 2,
        Stage::SetTimeout => 1,
    }
}

/// The kind of link that `stage` is a step towards.
pub open spec fn kind_of(stage: Stage) -> TransportKind {
    match stage {
        Stage::OpenPort | Stage::ConfigureLine | Stage::SetTimeout => TransportKind::Serial,
        _ => TransportKind::Usb,
    }
}

/// What the transport is asked to do at `stage`.
pub open spec fn action_of(stage: Stage) -> Action {
    match stage {
        Stage::Enumerate => Action::EnumerateDevices,
        Stage::Open => Action::OpenDevice { identity: DeviceIdentity::supported() },
        Stage::Reset => Action::ResetDevice,
        Stage::AutoDetach => Action::SetAutoDetachKernelDriver { enabled: true },
        Stage::KernelDriverQuery => Action::QueryKernelDriver { interface: INTERFACE },
        Stage::SelectConfiguration => Action::SetActiveConfiguration {
            configuration: CONFIGURATION,
        },
        Stage::ConfirmConfiguration => Action::ReadActiveConfiguration,
        Stage::ClaimInterface => Action::ClaimInterface { interface: INTERFACE },
        Stage::ReadTopology => Action::ReadTopology,
        Stage::OpenPort => Action::OpenPort,
        Stage::ConfigureLine => Action::ConfigureLine { settings: LineSettings::standard() },
        Stage::SetTimeout => Action::SetTimeout { timeout_ms: SERIAL_TIMEOUT_MS },
    }
}

/// What it means that the step of `stage` could not be carried out.
pub open spec fn failure_of(stage: Stage) -> ProbeError {
    match stage {
        Stage::Enumerate => ProbeError::Discovery(DiscoveryError::NoDeviceFound),
        Stage::Open => ProbeError::Discovery(DiscoveryError::DeviceNotFound),
        Stage::Reset => ProbeError::Session(SessionError::Reset),
        Stage::AutoDetach => ProbeError::Session(SessionError::AutoDetach),
        Stage::KernelDriverQuery => ProbeError::Session(SessionError::KernelDriverQuery),
        Stage::SelectConfiguration => ProbeError::Session(SessionError::Configuration),
        Stage::ConfirmConfiguration => ProbeError::Session(SessionError::Configuration),
        Stage::ClaimInterface => ProbeError::Session(SessionError::Claim),
        Stage::ReadTopology => ProbeError::Session(SessionError::DescriptorUnavailable),
        Stage::OpenPort => ProbeError::Discovery(DiscoveryError::PortUnavailable),
        Stage::ConfigureLine => ProbeError::Session(SessionError::LineConfiguration),
        Stage::SetTimeout => ProbeError::Session(SessionError::TimeoutConfiguration),
    }
}

/// Whether `event` is the success report of `stage`'s step, and what it
/// holds is acceptable. An event of a kind that the step does not report
/// is none.
pub open spec fn succeeds(stage: Stage, event: EventView) -> bool {
    match stage {
        Stage::Enumerate => event matches EventView::Devices { count } && count > 0,
        Stage::KernelDriverQuery => event is KernelDriver,
        Stage::ConfirmConfiguration => event matches EventView::ActiveConfiguration { index }
            && index == CONFIGURATION,
        Stage::ReadTopology => event matches EventView::Topology { topology } && conforms(
            topology,
        ),
        _ => event is Done,
    }
}

/// Why establishment ends at `stage` on an `event` that is no success:
/// where the event holds what the step reports, and the content is not
/// acceptable, the error says so; otherwise the step itself failed.
pub open spec fn rejection(stage: Stage, event: EventView) -> ProbeError {
    match (stage, event) {
        (Stage::ConfirmConfiguration, EventView::ActiveConfiguration { index }) => {
            ProbeError::Session(SessionError::ConfigurationMismatch { active: index })
        },
        (Stage::ReadTopology, EventView::Topology { topology }) => match validation(topology) {
            Err(mismatch) => ProbeError::Session(SessionError::TopologyMismatch(mismatch)),
            Ok(_) => failure_of(stage),
        },
        _ => failure_of(stage),
    }
}

/// The rule of establishment: where it stands after `event` came back for
/// the step of `stage`.
pub open spec fn step(stage: Stage, event: EventView) -> Progress {
    if !succeeds(stage, event) {
        Progress::Failed(rejection(stage, event))
    } else {
        match successor(stage) {
            Some(next) => Progress::Next(next),
            None => Progress::Established(Parameters::of(kind_of(stage))),
        }
    }
}

/// The stage that establishment over `kind` begins with.
pub fn begin(kind: TransportKind) -> (stage: Stage)
    ensures
        stage == first_stage(kind),
{
    match kind {
        TransportKind::Usb => Stage::Enumerate,
        TransportKind::Serial => Stage::OpenPort,
    }
}

/// The action to carry out at `stage`.
pub fn action_for(stage: Stage) -> (action: Action)
    ensures
        action == action_of(stage),
{
    match stage {
        Stage::Enumerate => Action::EnumerateDevices,
        Stage::Open => Action::OpenDevice { identity: DeviceIdentity::of_supported_device() },
        Stage::Reset => Action::ResetDevice,
        Stage::AutoDetach => Action::SetAutoDetachKernelDriver { enabled: true },
        Stage::KernelDriverQuery => Action::QueryKernelDriver { interface: INTERFACE },
        Stage::SelectConfiguration => Action::SetActiveConfiguration {
            configuration: CONFIGURATION,
        },
        Stage::ConfirmConfiguration => Action::ReadActiveConfiguration,
        Stage::ClaimInterface => Action::ClaimInterface { interface: INTERFACE },
        Stage::ReadTopology => Action::ReadTopology,
        Stage::OpenPort => Action::OpenPort,
        Stage::ConfigureLine => Action::ConfigureLine {
            settings: LineSettings::of_supported_instrument(),
        },
        Stage::SetTimeout => Action::SetTimeout { timeout_ms: SERIAL_TIMEOUT_MS },
    }
}

/// The error that the failure of `stage`'s step is reported as.
pub fn failure_at(stage: Stage) -> (error: ProbeError)
    ensures
        error == failure_of(stage),
{
    match stage {
        Stage::Enumerate => ProbeError::Discovery(DiscoveryError::NoDeviceFound),
        Stage::Open => ProbeError::Discovery(DiscoveryError::DeviceNotFound),
        Stage::Reset => ProbeError::Session(SessionError::Reset),
        Stage::AutoDetach => ProbeError::Session(SessionError::AutoDetach),
        Stage::KernelDriverQuery => ProbeError::Session(SessionError::KernelDriverQuery),
        Stage::SelectConfiguration => ProbeError::Session(SessionError::Configuration),
        Stage::ConfirmConfiguration => ProbeError::Session(SessionError::Configuration),
        Stage::ClaimInterface => ProbeError::Session(SessionError::Claim),
        Stage::ReadTopology => ProbeError::Session(SessionError::DescriptorUnavailable),
        Stage::OpenPort => ProbeError::Discovery(DiscoveryError::PortUnavailable),
        Stage::ConfigureLine => ProbeError::Session(SessionError::LineConfiguration),
        Stage::SetTimeout => ProbeError::Session(SessionError::TimeoutConfiguration),
    }
}

/// Decides what follows the step of `stage`, given the event that the
/// transport reported of it.
pub fn advance(stage: Stage, event: &Event) -> (progress: Progress)
    ensures
        progress == step(stage, event@),
{
    match stage {
        Stage::Enumerate => match event {
            Event::Devices { count } => if *count > 0 {
                Progress::Next(Stage::Open)
            } else {
                Progress::Failed(ProbeError::Discovery(DiscoveryError::NoDeviceFound))
            },
            _ => Progress::Failed(failure_at(stage)),
        },
        Stage::KernelDriverQuery => match event {
            Event::KernelDriver { .. } => Progress::Next(Stage::SelectConfiguration),
            _ => Progress::Failed(failure_at(stage)),
        },
        Stage::ConfirmConfiguration => match event {
            Event::ActiveConfiguration { index } => if *index == CONFIGURATION {
                Progress::Next(Stage::ClaimInterface)
            } else {
                Progress::Failed(
                    ProbeError::Session(SessionError::ConfigurationMismatch { active: *index }),
                )
            },
            _ => Progress::Failed(failure_at(stage)),
        },
        Stage::ReadTopology => match event {
            Event::Topology { topology } => match validate_topology(topology) {
                Ok(endpoints) => Progress::Established(Parameters::Usb { endpoints }),
                Err(mismatch) => Progress::Failed(
                    ProbeError::Session(SessionError::TopologyMismatch(mismatch)),
                ),
            },
            _ => Progress::Failed(failure_at(stage)),
        },
        Stage::SetTimeout => match event {
            Event::Done => Progress::Established(
                Parameters::Serial {
                    settings: LineSettings::of_supported_instrument(),
                    timeout_ms: SERIAL_TIMEOUT_MS,
                },
            ),
            _ => Progress::Failed(failure_at(stage)),
        },
        Stage::Open => match event {
            Event::Done => Progress::Next(Stage::Reset),
            _ => Progress::Failed(failure_at(stage)),
        },
        Stage::Reset => match event {
            Event::Done => Progress::Next(Stage::AutoDetach),
            _ => Progress::Failed(failure_at(stage)),
        },
        Stage::AutoDetach => match event {
            Event::Done => Progress::Next(Stage::KernelDriverQuery),
            _ => Progress::Failed(failure_at(stage)),
        },
        Stage::SelectConfiguration => match event {
            Event::Done => Progress::Next(Stage::ConfirmConfiguration),
            _ => Progress::Failed(failure_at(stage)),
        },
        Stage::ClaimInterface => match event {
            Event::Done => Progress::Next(Stage::ReadTopology),
            _ => Progress::Failed(failure_at(stage)),
        },
        Stage::OpenPort => match event {
            Event::Done => Progress::Next(Stage::ConfigureLine),
            _ => Progress::Failed(failure_at(stage)),
        },
        Stage::ConfigureLine => match event {
            Event::Done => Progress::Next(Stage::SetTimeout),
            _ => Progress::Failed(failure_at(stage)),
        },
    }
}

/// Where establishment stands after a run of events, the first of them
/// reported of the step of `stage`, each next one of the step that
/// followed. The run ends with the first event that establishes the session
/// or fails; what comes after it changes nothing.
pub open spec fn run(stage: Stage, events: Seq<EventView>) -> Progress
    decreases events.len(),
{
    if events.len() == 0 {
        Progress::Next(stage)
    } else {
        match run(stage, events.drop_last()) {
            Progress::Next(current) => step(current, events.last()),
            ended => ended,
        }
    }
}

/// The operations that establishment asks the transport for over a run of
/// events: one for each event up to the one that ends the run, each with
/// the action of the stage that was reached.
pub open spec fn setup_operations(stage: Stage, events: Seq<EventView>) -> Seq<Operation>
    decreases events.len(),
{
    if events.len() == 0 {
        Seq::empty()
    } else {
        let earlier = setup_operations(stage, events.drop_last());
        match run(stage, events.drop_last()) {
            Progress::Next(current) => earlier.push(
                Operation::Setup { action: action_of(current), event: events.last() },
            ),
            _ => earlier,
        }
    }
}

/// The events that a run of setup operations reported, one for one.
pub open spec fn reported(operations: Seq<Operation>) -> Seq<EventView> {
    Seq::new(operations.len(), |i: int| operations[i]->event)
}

/// The end of establishment as a stand of progress.
pub open spec fn concluded(result: Result<Parameters, ProbeError>) -> Progress {
    match result {
        Ok(parameters) => Progress::Established(parameters),
        Err(error) => Progress::Failed(error),
    }
}

/// The steps come in their fixed order, and each success uses one up: an
/// event either ends establishment or leads to the successor of the stage.
/// A session is established by the success of a last step only, and every
/// error is one of discovery or of the session.
pub proof fn lemma_steps_in_order(stage: Stage, event: EventView)
    ensures
        step(stage, event) matches Progress::Next(next) ==> successor(stage) == Some(next)
            && kind_of(next) == kind_of(stage) && steps_left(next) + 1 == steps_left(stage),
        step(stage, event) matches Progress::Established(parameters) ==> successor(stage) is None
            && succeeds(stage, event) && parameters == Parameters::of(kind_of(stage)),
        step(stage, event) matches Progress::Failed(error) ==> !succeeds(stage, event) && (
        error is Discovery || error is Session),
        step(stage, event) is Failed <==> !succeeds(stage, event),
{
}

/// A run that has ended stays ended: once a step has failed, or the
/// session is established, no further action is asked for, and nothing
/// that is reported afterwards changes the outcome.
pub proof fn lemma_end_is_final(stage: Stage, events: Seq<EventView>, later: Seq<EventView>)
    requires
        !(run(stage, events) is Next),
    ensures
        run(stage, events + later) == run(stage, events),
        setup_operations(stage, events + later) == setup_operations(stage, events),
    decreases later.len(),
{
    if later.len() > 0 {
        lemma_end_is_final(stage, events, later.drop_last());
        assert((events + later).drop_last() =~= events + later.drop_last());
    }
}

/// The shape of a run. While it goes on, every event so far has used up
/// one step, and one operation was asked for each. Once it has ended, at
/// least one and at most as many operations were asked for as there are
/// steps; a session is established by exactly that many, and has the
/// parameters of its kind of link.
pub proof fn lemma_run_shape(stage: Stage, events: Seq<EventView>)
    ensures
        setup_operations(stage, events).len() <= events.len(),
        setup_operations(stage, events).len() <= steps_left(stage),
        match run(stage, events) {
            Progress::Next(next) => kind_of(next) == kind_of(stage) && steps_left(next)
                + events.len() == steps_left(stage) && setup_operations(stage, events).len()
                == events.len(),
            Progress::Established(parameters) => parameters == Parameters::of(kind_of(stage))
                && parameters.validated() && setup_operations(stage, events).len()
                == steps_left(stage),
            Progress::Failed(error) => setup_operations(stage, events).len() >= 1 && (
            error is Discovery || error is Session),
        },
    decreases events.len(),
{
    if events.len() > 0 {
        lemma_run_shape(stage, events.drop_last());
        if let Progress::Next(current) = run(stage, events.drop_last()) {
            lemma_steps_in_order(current, events.last());
        }
    }
}

/// The stage that is reached from `stage` after `count` successful steps.
/// The last stage of a kind of link is where it stays.
pub open spec fn stage_at(stage: Stage, count: nat) -> Stage
    decreases count,
{
    if count == 0 {
        stage
    } else {
        let before = stage_at(stage, (count - 1) as nat);
        match successor(before) {
            Some(next) => next,
            None => before,
        }
    }
}

/// A run that goes on has reached the stage that its events count up to.
pub proof fn lemma_stage_of_run(stage: Stage, events: Seq<EventView>)
    ensures
        run(stage, events) matches Progress::Next(next) ==> next == stage_at(stage, events.len()),
    decreases events.len(),
{
    if events.len() > 0 {
        lemma_stage_of_run(stage, events.drop_last());
        if let Progress::Next(current) = run(stage, events.drop_last()) {
            lemma_steps_in_order(current, events.last());
        }
    }
}

/// The operations of a run are asked for in the fixed order of the stages:
/// the one at `index` is the action of the stage that `index` successful
/// steps lead to, and carries the event at `index`.
pub proof fn lemma_operations_in_order(stage: Stage, events: Seq<EventView>, index: int)
    requires
        0 <= index < setup_operations(stage, events).len(),
    ensures
        index < events.len(),
        setup_operations(stage, events)[index] == (Operation::Setup {
            action: action_of(stage_at(stage, index as nat)),
            event: events[index],
        }),
    decreases events.len(),
{
    lemma_run_shape(stage, events);
    lemma_stage_of_run(stage, events);
    if events.len() > 0 {
        let earlier = events.drop_last();
        lemma_run_shape(stage, earlier);
        lemma_stage_of_run(stage, earlier);
        if index < setup_operations(stage, earlier).len() {
            lemma_operations_in_order(stage, earlier, index);
        }
    }
}

/// Two runs that ask for the same operations are the same run, as far as
/// their events were looked at: they reported the same events and stand at
/// the same point.
pub proof fn lemma_operations_determine_the_run(
    stage: Stage,
    first: Seq<EventView>,
    second: Seq<EventView>,
)
    requires
        setup_operations(stage, first) == setup_operations(stage, second),
        setup_operations(stage, first).len() == first.len(),
        setup_operations(stage, second).len() == second.len(),
    ensures
        first == second,
{
    assert forall|i: int| 0 <= i < first.len() implies first[i] == second[i] by {
        lemma_operations_in_order(stage, first, i);
        lemma_operations_in_order(stage, second, i);
    }
}

/// A USB session is established only on a topology that conforms: the
/// ninth event of the run is the device's topology, and it has the
/// accepted shape.
pub proof fn lemma_usb_session_is_validated(events: Seq<EventView>)
    requires
        run(Stage::Enumerate, events) is Established,
    ensures
        events.len() >= 9,
        events[8] matches EventView::Topology { topology } && conforms(topology),
    decreases events.len(),
{
    if events.len() > 0 {
        lemma_run_shape(Stage::Enumerate, events.drop_last());
        match run(Stage::Enumerate, events.drop_last()) {
            Progress::Next(current) => {
                lemma_steps_in_order(current, events.last());
            },
            _ => {
                lemma_usb_session_is_validated(events.drop_last());
            },
        }
    }
}

/// Establishing twice gives the same result: two runs over the same kind of
/// link that both end established end with the same parameters, and so,
/// over USB, with the same endpoint pair.
pub proof fn lemma_reestablishment_agrees(
    kind: TransportKind,
    first: Seq<EventView>,
    second: Seq<EventView>,
)
    requires
        run(first_stage(kind), first) is Established,
        run(first_stage(kind), second) is Established,
    ensures
        run(first_stage(kind), first) == run(first_stage(kind), second),
        kind == TransportKind::Usb ==> run(first_stage(kind), first) == Progress::Established(
            Parameters::Usb { endpoints: EndpointPair::expected() },
        ),
{
    lemma_run_shape(first_stage(kind), first);
    lemma_run_shape(first_stage(kind), second);
}

} // verus!
