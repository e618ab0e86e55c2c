use labprobe::channel::{
    judge_read, judge_write, same_bytes, ChannelError, Reply, Request, ResponseLength,
    READ_TIMEOUT_MS, SERIAL_TIMEOUT_MS, WRITE_TIMEOUT_MS,
};
use labprobe::command::{Command, FRAME_LEN, IDENTIFY_REPLY_MAX};
use labprobe::decoder::{
    check_length, decode_firmware_version, verify_firmware, DecodeError, FirmwareVersion,
};
use labprobe::device::{
    DeviceIdentity, EndpointPair, CONFIGURATION, INTERFACE, PRODUCT_ID, READ_ENDPOINT,
    SERIAL_PORT, VENDOR_ID, WRITE_ENDPOINT,
};
use labprobe::error::{DiscoveryError, ProbeError, SessionError};
use labprobe::probe::{firmware_of_reply, identification_of_reply};
use labprobe::establishment::{
    action_for, advance, begin, failure_at, Action, Event, Parameters, Progress, Stage,
    TransportKind,
};
use labprobe::line::{FlowControl, LineSettings, Parity};
use labprobe::topology::{
    ConfigDescriptor, DeviceTopology, Direction, EndpointDescriptor, InterfaceDescriptor,
    TransferType,
};
use labprobe::transport::{Fault, Target};
use labprobe::validator::TopologyMismatch;

const EXPECTED: FirmwareVersion = FirmwareVersion { major: 1, minor: 10 };

fn supported_topology() -> DeviceTopology {
    let endpoints = vec![
        EndpointDescriptor {
            address: 0x81,
            direction: Direction::In,
            transfer_type: TransferType::Interrupt,
        },
        EndpointDescriptor {
            address: 0x02,
            direction: Direction::Out,
            transfer_type: TransferType::Interrupt,
        },
    ];
    DeviceTopology::new(
        0,
        vec![ConfigDescriptor::new(vec![InterfaceDescriptor::new(0, endpoints)])],
    )
}

#[test]
fn commands_encode_to_their_literal_bytes() {
    assert_eq!(Command::Init.encode(), vec![0x00, 0x00, 0x00, 0x00, 0x00, 0x57, 0x00, 0x00]);
    assert_eq!(
        Command::QueryFirmware.encode(),
        vec![0x01, 0x00, 0x00, 0x00, 0x00, 0x53, 0x00, 0x00]
    );
    assert_eq!(Command::Identify.encode(), b"*IDN\n".to_vec());
    assert_eq!(Command::Init.encode().len(), FRAME_LEN);
    assert_eq!(Command::QueryFirmware.encode().len(), FRAME_LEN);
    assert_eq!(FRAME_LEN, 8);
    assert_eq!(IDENTIFY_REPLY_MAX, 255);
}

#[test]
fn device_constants() {
    assert_eq!(VENDOR_ID, 0x0CD5);
    assert_eq!(PRODUCT_ID, 0x0001);
    assert_eq!(READ_ENDPOINT, 0x81);
    assert_eq!(WRITE_ENDPOINT, 0x02);
    assert_eq!(INTERFACE, 0);
    assert_eq!(CONFIGURATION, 0);
    assert_eq!(SERIAL_PORT, "/dev/cu.usbserial-D309PLP8");
    assert_eq!(
        DeviceIdentity::of_supported_device(),
        DeviceIdentity { vendor_id: 0x0CD5, product_id: 0x0001 }
    );
    assert_eq!(FirmwareVersion::of_supported_device(), EXPECTED);
    assert_eq!(
        LineSettings::of_supported_instrument(),
        LineSettings {
            baud_rate: 9600,
            data_bits: 8,
            parity: Parity::Off,
            stop_bits: 1,
            flow_control: FlowControl::Off,
        }
    );
}

#[test]
fn requests_carry_the_bounds_of_their_command() {
    let init = Request::for_command(Command::Init);
    assert_eq!(init.command, vec![0, 0, 0, 0, 0, 0x57, 0, 0]);
    assert_eq!(init.write_timeout_ms, 20);
    assert_eq!(init.read_timeout_ms, 100);
    assert_eq!(init.response, ResponseLength::Exactly(8));
    let query = Request::for_command(Command::QueryFirmware);
    assert_eq!(query.command, vec![1, 0, 0, 0, 0, 0x53, 0, 0]);
    assert_eq!(query.write_timeout_ms, WRITE_TIMEOUT_MS);
    assert_eq!(query.read_timeout_ms, READ_TIMEOUT_MS);
    assert_eq!(query.response, ResponseLength::Exactly(8));
    let identify = Request::for_command(Command::Identify);
    assert_eq!(identify.command, b"*IDN\n".to_vec());
    assert_eq!(identify.write_timeout_ms, 1000);
    assert_eq!(identify.read_timeout_ms, SERIAL_TIMEOUT_MS);
    assert_eq!(identify.response, ResponseLength::AtMost(255));
    assert_eq!(ResponseLength::Exactly(8).buffer_size(), 8);
    assert_eq!(ResponseLength::AtMost(255).buffer_size(), 255);
}

#[test]
fn a_complete_write_lets_the_read_follow() {
    let query = Request::for_command(Command::QueryFirmware);
    assert_eq!(judge_write(&query, Ok(8)), Ok(()));
    let identify = Request::for_command(Command::Identify);
    assert_eq!(judge_write(&identify, Ok(5)), Ok(()));
}

#[test]
fn a_short_write_is_reported_with_both_counts() {
    let query = Request::for_command(Command::QueryFirmware);
    assert_eq!(
        judge_write(&query, Ok(7)),
        Err(ChannelError::ShortWrite { written: 7, requested: 8 })
    );
    assert_eq!(
        judge_write(&query, Ok(0)),
        Err(ChannelError::ShortWrite { written: 0, requested: 8 })
    );
    let identify = Request::for_command(Command::Identify);
    assert_eq!(
        judge_write(&identify, Ok(4)),
        Err(ChannelError::ShortWrite { written: 4, requested: 5 })
    );
}

#[test]
fn a_failed_write_is_a_timeout_or_an_error() {
    let query = Request::for_command(Command::QueryFirmware);
    assert_eq!(judge_write(&query, Err(Fault::Timeout)), Err(ChannelError::WriteTimeout));
    assert_eq!(judge_write(&query, Err(Fault::Other)), Err(ChannelError::WriteError));
    assert_eq!(judge_write(&query, Ok(9)), Err(ChannelError::WriteError));
}

#[test]
fn a_full_frame_is_the_reply() {
    let query = Request::for_command(Command::QueryFirmware);
    assert_eq!(
        judge_read(&query, Ok(vec![1, 10, 0, 0, 0, 0, 0, 0])),
        Ok(Reply::Frame(vec![1, 10, 0, 0, 0, 0, 0, 0]))
    );
}

#[test]
fn a_short_read_is_reported_with_both_counts() {
    let query = Request::for_command(Command::QueryFirmware);
    assert_eq!(
        judge_read(&query, Ok(vec![1, 10, 0])),
        Err(ChannelError::ShortRead { received: 3, expected: 8 })
    );
    assert_eq!(
        judge_read(&query, Ok(vec![])),
        Err(ChannelError::ShortRead { received: 0, expected: 8 })
    );
}

#[test]
fn a_failed_read_is_a_timeout_or_an_error() {
    let query = Request::for_command(Command::QueryFirmware);
    assert_eq!(judge_read(&query, Err(Fault::Timeout)), Err(ChannelError::ReadTimeout));
    assert_eq!(judge_read(&query, Err(Fault::Other)), Err(ChannelError::ReadError));
    assert_eq!(judge_read(&query, Ok(vec![0; 9])), Err(ChannelError::ReadError));
    let identify = Request::for_command(Command::Identify);
    assert_eq!(judge_read(&identify, Err(Fault::Timeout)), Err(ChannelError::ReadTimeout));
    assert_eq!(judge_read(&identify, Ok(vec![0x20; 256])), Err(ChannelError::ReadError));
}

#[test]
fn silence_is_the_answer_to_the_init_probe_alone() {
    let init = Request::for_command(Command::Init);
    assert_eq!(judge_read(&init, Err(Fault::Timeout)), Ok(Reply::Silence));
    assert_eq!(judge_read(&init, Err(Fault::Other)), Err(ChannelError::ReadError));
    assert_eq!(
        judge_read(&init, Ok(vec![0; 4])),
        Err(ChannelError::ShortRead { received: 4, expected: 8 })
    );
    assert_eq!(judge_read(&init, Ok(vec![0; 8])), Ok(Reply::Frame(vec![0; 8])));
    // The same bytes make the same command, whatever the bounds.
    let by_hand = Request {
        command: vec![0, 0, 0, 0, 0, 0x57, 0, 0],
        write_timeout_ms: 5,
        read_timeout_ms: 5,
        response: ResponseLength::Exactly(8),
    };
    assert_eq!(judge_read(&by_hand, Err(Fault::Timeout)), Ok(Reply::Silence));
    // One byte off, and silence is a fault.
    let other = Request {
        command: vec![0, 0, 0, 0, 0, 0x58, 0, 0],
        write_timeout_ms: 20,
        read_timeout_ms: 100,
        response: ResponseLength::Exactly(8),
    };
    assert_eq!(judge_read(&other, Err(Fault::Timeout)), Err(ChannelError::ReadTimeout));
}

#[test]
fn free_text_may_have_any_length_up_to_the_bound() {
    let identify = Request::for_command(Command::Identify);
    assert_eq!(judge_read(&identify, Ok(vec![])), Ok(Reply::Frame(vec![])));
    assert_eq!(
        judge_read(&identify, Ok(b"VC7055BT\n".to_vec())),
        Ok(Reply::Frame(b"VC7055BT\n".to_vec()))
    );
    assert_eq!(judge_read(&identify, Ok(vec![0x41; 255])), Ok(Reply::Frame(vec![0x41; 255])));
}

#[test]
fn byte_strings_compare_by_content() {
    assert!(same_bytes(&[], &[]));
    assert!(same_bytes(&[1, 2, 3], &[1, 2, 3]));
    assert!(!same_bytes(&[1, 2, 3], &[1, 2, 4]));
    assert!(!same_bytes(&[9, 2, 3], &[1, 2, 3]));
    assert!(!same_bytes(&[1, 2, 3], &[1, 2]));
    assert!(!same_bytes(&[], &[0]));
}

#[test]
fn firmware_query_round_trip() {
    assert_eq!(
        Command::QueryFirmware.encode(),
        vec![0x01, 0x00, 0x00, 0x00, 0x00, 0x53, 0x00, 0x00]
    );
    let response = [1u8, 10, 0, 0, 0, 0, 0, 0];
    let version = decode_firmware_version(&response, 8).unwrap();
    assert_eq!(version.major, 1);
    assert_eq!(version.minor, 10);
    assert_eq!(version.verify(EXPECTED), Ok(()));
    assert_eq!(verify_firmware(&response, 8, EXPECTED), Ok(EXPECTED));
}

#[test]
fn another_firmware_version_is_a_version_mismatch() {
    let response = [2u8, 0, 0, 0, 0, 0, 0, 0];
    assert_eq!(
        decode_firmware_version(&response, 8),
        Ok(FirmwareVersion { major: 2, minor: 0 })
    );
    assert_eq!(
        verify_firmware(&response, 8, EXPECTED),
        Err(DecodeError::VersionMismatch {
            expected: EXPECTED,
            found: FirmwareVersion { major: 2, minor: 0 },
        })
    );
    let response = [1u8, 11, 0, 0, 0, 0, 0, 0];
    assert_eq!(
        verify_firmware(&response, 8, EXPECTED),
        Err(DecodeError::VersionMismatch {
            expected: EXPECTED,
            found: FirmwareVersion { major: 1, minor: 11 },
        })
    );
    assert_eq!(
        FirmwareVersion { major: 0, minor: 10 }.verify(EXPECTED),
        Err(DecodeError::VersionMismatch {
            expected: EXPECTED,
            found: FirmwareVersion { major: 0, minor: 10 },
        })
    );
}

#[test]
fn only_the_version_bytes_are_read() {
    let response = [1u8, 10, 0xde, 0xad, 0xbe, 0xef, 0x12, 0x34];
    assert_eq!(verify_firmware(&response, 8, EXPECTED), Ok(EXPECTED));
}

#[test]
fn another_length_is_a_length_mismatch() {
    assert_eq!(check_length(&[0; 8], 8), Ok(()));
    assert_eq!(check_length(&[], 0), Ok(()));
    assert_eq!(
        check_length(&[0; 7], 8),
        Err(DecodeError::ResponseLengthMismatch { expected: 8, found: 7 })
    );
    assert_eq!(
        check_length(&[0; 9], 8),
        Err(DecodeError::ResponseLengthMismatch { expected: 8, found: 9 })
    );
    assert_eq!(
        decode_firmware_version(&[1, 10, 0], 8),
        Err(DecodeError::ResponseLengthMismatch { expected: 8, found: 3 })
    );
    assert_eq!(
        verify_firmware(&[1, 10, 0, 0, 0, 0, 0, 0, 0], 8, EXPECTED),
        Err(DecodeError::ResponseLengthMismatch { expected: 8, found: 9 })
    );
    // A wrong length wins over a wrong version.
    assert_eq!(
        verify_firmware(&[2, 0], 8, EXPECTED),
        Err(DecodeError::ResponseLengthMismatch { expected: 8, found: 2 })
    );
}

#[test]
fn a_frame_too_short_for_a_version_holds_none() {
    assert_eq!(
        decode_firmware_version(&[1], 1),
        Err(DecodeError::ResponseLengthMismatch { expected: 2, found: 1 })
    );
    assert_eq!(
        decode_firmware_version(&[], 0),
        Err(DecodeError::ResponseLengthMismatch { expected: 2, found: 0 })
    );
    assert_eq!(decode_firmware_version(&[1, 10], 2), Ok(EXPECTED));
}

#[test]
fn replies_are_decoded_into_versions() {
    assert_eq!(firmware_of_reply(&Reply::Frame(vec![1, 10, 0, 0, 0, 0, 0, 0])), Ok(EXPECTED));
    assert_eq!(
        firmware_of_reply(&Reply::Frame(vec![2, 0, 0, 0, 0, 0, 0, 0])),
        Err(ProbeError::Decode(DecodeError::VersionMismatch {
            expected: EXPECTED,
            found: FirmwareVersion { major: 2, minor: 0 },
        }))
    );
    assert_eq!(
        firmware_of_reply(&Reply::Frame(vec![1, 10])),
        Err(ProbeError::Decode(DecodeError::ResponseLengthMismatch { expected: 8, found: 2 }))
    );
    assert_eq!(
        firmware_of_reply(&Reply::Silence),
        Err(ProbeError::Channel {
            command: Command::QueryFirmware,
            error: ChannelError::ReadTimeout,
        })
    );
}

#[test]
fn replies_are_taken_as_identifications() {
    assert_eq!(
        identification_of_reply(Reply::Frame(b"VICTOR,VC7055BT\n".to_vec())),
        Ok(b"VICTOR,VC7055BT\n".to_vec())
    );
    assert_eq!(identification_of_reply(Reply::Frame(vec![])), Ok(vec![]));
    assert_eq!(
        identification_of_reply(Reply::Silence),
        Err(ProbeError::Channel { command: Command::Identify, error: ChannelError::ReadTimeout })
    );
}

#[test]
fn sessions_talk_through_their_own_targets() {
    let usb =
        Parameters::Usb { endpoints: EndpointPair { read_address: 0x81, write_address: 0x02 } };
    assert_eq!(usb.targets(), (Target::Endpoint(0x02), Target::Endpoint(0x81)));
    let serial = Parameters::Serial {
        settings: LineSettings::of_supported_instrument(),
        timeout_ms: 1000,
    };
    assert_eq!(serial.targets(), (Target::Port, Target::Port));
}

#[test]
fn establishment_begins_at_the_first_stage() {
    assert_eq!(begin(TransportKind::Usb), Stage::Enumerate);
    assert_eq!(begin(TransportKind::Serial), Stage::OpenPort);
}

#[test]
fn each_stage_has_its_action() {
    assert_eq!(action_for(Stage::Enumerate), Action::EnumerateDevices);
    assert_eq!(
        action_for(Stage::Open),
        Action::OpenDevice { identity: DeviceIdentity { vendor_id: 0x0CD5, product_id: 0x0001 } }
    );
    assert_eq!(action_for(Stage::Reset), Action::ResetDevice);
    assert_eq!(
        action_for(Stage::AutoDetach),
        Action::SetAutoDetachKernelDriver { enabled: true }
    );
    assert_eq!(action_for(Stage::KernelDriverQuery), Action::QueryKernelDriver { interface: 0 });
    assert_eq!(
        action_for(Stage::SelectConfiguration),
        Action::SetActiveConfiguration { configuration: 0 }
    );
    assert_eq!(action_for(Stage::ConfirmConfiguration), Action::ReadActiveConfiguration);
    assert_eq!(action_for(Stage::ClaimInterface), Action::ClaimInterface { interface: 0 });
    assert_eq!(action_for(Stage::ReadTopology), Action::ReadTopology);
    assert_eq!(action_for(Stage::OpenPort), Action::OpenPort);
    assert_eq!(
        action_for(Stage::ConfigureLine),
        Action::ConfigureLine {
            settings: LineSettings {
                baud_rate: 9600,
                data_bits: 8,
                parity: Parity::Off,
                stop_bits: 1,
                flow_control: FlowControl::Off,
            },
        }
    );
    assert_eq!(action_for(Stage::SetTimeout), Action::SetTimeout { timeout_ms: 1000 });
}

#[test]
fn each_stage_has_its_failure() {
    assert_eq!(
        failure_at(Stage::Enumerate),
        ProbeError::Discovery(DiscoveryError::NoDeviceFound)
    );
    assert_eq!(failure_at(Stage::Open), ProbeError::Discovery(DiscoveryError::DeviceNotFound));
    assert_eq!(failure_at(Stage::Reset), ProbeError::Session(SessionError::Reset));
    assert_eq!(failure_at(Stage::AutoDetach), ProbeError::Session(SessionError::AutoDetach));
    assert_eq!(
        failure_at(Stage::KernelDriverQuery),
        ProbeError::Session(SessionError::KernelDriverQuery)
    );
    assert_eq!(
        failure_at(Stage::SelectConfiguration),
        ProbeError::Session(SessionError::Configuration)
    );
    assert_eq!(
        failure_at(Stage::ConfirmConfiguration),
        ProbeError::Session(SessionError::Configuration)
    );
    assert_eq!(failure_at(Stage::ClaimInterface), ProbeError::Session(SessionError::Claim));
    assert_eq!(
        failure_at(Stage::ReadTopology),
        ProbeError::Session(SessionError::DescriptorUnavailable)
    );
    assert_eq!(
        failure_at(Stage::OpenPort),
        ProbeError::Discovery(DiscoveryError::PortUnavailable)
    );
    assert_eq!(
        failure_at(Stage::ConfigureLine),
        ProbeError::Session(SessionError::LineConfiguration)
    );
    assert_eq!(
        failure_at(Stage::SetTimeout),
        ProbeError::Session(SessionError::TimeoutConfiguration)
    );
}

#[test]
fn every_success_leads_to_the_next_stage() {
    assert_eq!(
        advance(Stage::Enumerate, &Event::Devices { count: 1 }),
        Progress::Next(Stage::Open)
    );
    assert_eq!(
        advance(Stage::Enumerate, &Event::Devices { count: 12 }),
        Progress::Next(Stage::Open)
    );
    assert_eq!(advance(Stage::Open, &Event::Done), Progress::Next(Stage::Reset));
    assert_eq!(advance(Stage::Reset, &Event::Done), Progress::Next(Stage::AutoDetach));
    assert_eq!(advance(Stage::AutoDetach, &Event::Done), Progress::Next(Stage::KernelDriverQuery));
    assert_eq!(
        advance(Stage::SelectConfiguration, &Event::Done),
        Progress::Next(Stage::ConfirmConfiguration)
    );
    assert_eq!(
        advance(Stage::ConfirmConfiguration, &Event::ActiveConfiguration { index: 0 }),
        Progress::Next(Stage::ClaimInterface)
    );
    assert_eq!(advance(Stage::ClaimInterface, &Event::Done), Progress::Next(Stage::ReadTopology));
    assert_eq!(advance(Stage::OpenPort, &Event::Done), Progress::Next(Stage::ConfigureLine));
    assert_eq!(advance(Stage::ConfigureLine, &Event::Done), Progress::Next(Stage::SetTimeout));
}

#[test]
fn an_active_kernel_driver_is_no_obstacle() {
    assert_eq!(
        advance(Stage::KernelDriverQuery, &Event::KernelDriver { active: true }),
        Progress::Next(Stage::SelectConfiguration)
    );
    assert_eq!(
        advance(Stage::KernelDriverQuery, &Event::KernelDriver { active: false }),
        Progress::Next(Stage::SelectConfiguration)
    );
    assert_eq!(
        advance(Stage::KernelDriverQuery, &Event::Failed),
        Progress::Failed(ProbeError::Session(SessionError::KernelDriverQuery))
    );
}

#[test]
fn the_last_step_establishes_the_session() {
    assert_eq!(
        advance(Stage::ReadTopology, &Event::Topology { topology: supported_topology() }),
        Progress::Established(Parameters::Usb {
            endpoints: EndpointPair { read_address: 0x81, write_address: 0x02 },
        })
    );
    assert_eq!(
        advance(Stage::SetTimeout, &Event::Done),
        Progress::Established(Parameters::Serial {
            settings: LineSettings {
                baud_rate: 9600,
                data_bits: 8,
                parity: Parity::Off,
                stop_bits: 1,
                flow_control: FlowControl::Off,
            },
            timeout_ms: 1000,
        })
    );
}

#[test]
fn an_empty_enumeration_finds_no_device() {
    assert_eq!(
        advance(Stage::Enumerate, &Event::Devices { count: 0 }),
        Progress::Failed(ProbeError::Discovery(DiscoveryError::NoDeviceFound))
    );
    assert_eq!(
        advance(Stage::Enumerate, &Event::Failed),
        Progress::Failed(ProbeError::Discovery(DiscoveryError::NoDeviceFound))
    );
}

#[test]
fn a_device_that_cannot_be_opened_is_not_found() {
    assert_eq!(
        advance(Stage::Open, &Event::Failed),
        Progress::Failed(ProbeError::Discovery(DiscoveryError::DeviceNotFound))
    );
}

#[test]
fn another_active_configuration_ends_establishment() {
    assert_eq!(
        advance(Stage::ConfirmConfiguration, &Event::ActiveConfiguration { index: 1 }),
        Progress::Failed(ProbeError::Session(SessionError::ConfigurationMismatch { active: 1 }))
    );
    assert_eq!(
        advance(Stage::ConfirmConfiguration, &Event::Failed),
        Progress::Failed(ProbeError::Session(SessionError::Configuration))
    );
}

#[test]
fn a_mismatched_topology_ends_establishment() {
    let topology = DeviceTopology::new(0, vec![ConfigDescriptor::new(vec![])]);
    assert_eq!(
        advance(Stage::ReadTopology, &Event::Topology { topology }),
        Progress::Failed(ProbeError::Session(SessionError::TopologyMismatch(
            TopologyMismatch::InterfaceCount { found: 0 }
        )))
    );
    assert_eq!(
        advance(Stage::ReadTopology, &Event::Failed),
        Progress::Failed(ProbeError::Session(SessionError::DescriptorUnavailable))
    );
}

#[test]
fn every_failed_step_ends_establishment() {
    let stages = [
        Stage::Enumerate,
        Stage::Open,
        Stage::Reset,
        Stage::AutoDetach,
        Stage::KernelDriverQuery,
        Stage::SelectConfiguration,
        Stage::ConfirmConfiguration,
        Stage::ClaimInterface,
        Stage::ReadTopology,
        Stage::OpenPort,
        Stage::ConfigureLine,
        Stage::SetTimeout,
    ];
    for stage in stages {
        assert_eq!(advance(stage, &Event::Failed), Progress::Failed(failure_at(stage)));
    }
}

#[test]
fn an_event_that_does_not_fit_the_step_is_its_failure() {
    assert_eq!(
        advance(Stage::Reset, &Event::Devices { count: 3 }),
        Progress::Failed(ProbeError::Session(SessionError::Reset))
    );
    assert_eq!(
        advance(Stage::Enumerate, &Event::Done),
        Progress::Failed(ProbeError::Discovery(DiscoveryError::NoDeviceFound))
    );
    assert_eq!(
        advance(Stage::OpenPort, &Event::Topology { topology: supported_topology() }),
        Progress::Failed(ProbeError::Discovery(DiscoveryError::PortUnavailable))
    );
    assert_eq!(
        advance(Stage::ReadTopology, &Event::Done),
        Progress::Failed(ProbeError::Session(SessionError::DescriptorUnavailable))
    );
    assert_eq!(
        advance(Stage::SetTimeout, &Event::KernelDriver { active: false }),
        Progress::Failed(ProbeError::Session(SessionError::TimeoutConfiguration))
    );
}
