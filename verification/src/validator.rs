//! Holds a device's reported topology against the one fixed shape that the
//! supported device has, and names the first expectation it fails.

use vstd::prelude::*;
use crate::device::{EndpointPair, CONFIGURATION, INTERFACE, READ_ENDPOINT, WRITE_ENDPOINT};
use crate::topology::{
    DeviceTopology, Direction, EndpointDescriptor, InterfaceView, TopologyView, TransferType,
};

verus! {

/// The expectation that a topology failed first, with what was found instead.
#[allow(inconsistent_fields)]
#[derive(Clone, Copy, Debug, PartialEq, Eq, Structural)]
pub enum TopologyMismatch {
    /// The device does not offer exactly one configuration.
    ConfigurationCount { found: usize },
    /// The active configuration is not configuration 0.
    ActiveConfiguration { found: u8 },
    /// The configuration does not have exactly one interface.
    InterfaceCount { found: usize },
    /// The interface's number is not 0.
    InterfaceNumber { found: u8 },
    /// The interface does not expose exactly two endpoints.
    EndpointCount { found: usize },
    /// The endpoint at `index` is not an interrupt endpoint.
    TransferType { index: usize, found: TransferType },
    /// The endpoint at `index` does not have the address expected there.
    EndpointAddress { index: usize, found: u8 },
    /// The endpoint at `index` does not have the direction expected there.
    EndpointDirection { index: usize, found: Direction },
}

/// The endpoint that the supported device has at `index`: the read endpoint
/// first, the write endpoint second.
pub open spec fn expected_endpoint(index: int) -> EndpointDescriptor {
    if index == 0 {
        EndpointDescriptor {
            address: READ_ENDPOINT,
            direction: Direction::In,
            transfer_type: TransferType::Interrupt,
        }
    } else {
        EndpointDescriptor {
            address: WRITE_ENDPOINT,
            direction: Direction::Out,
            transfer_type: TransferType::Interrupt,
        }
    }
}

/// The one shape that is accepted: a single configuration, active, with a
/// single interface numbered 0 whose endpoints are exactly the expected two.
pub open spec fn conforms(topology: TopologyView) -> bool {
    &&& topology.configurations.len() == 1
    &&& topology.active_configuration == CONFIGURATION
    &&& topology.configurations[0].interfaces.len() == 1
    &&& topology.configurations[0].interfaces[0].number == INTERFACE
    &&& topology.configurations[0].interfaces[0].endpoints =~= seq![
        expected_endpoint(0),
        expected_endpoint(1),
    ]
}

/// The first expectation that the endpoints of the interface fail, if any:
/// both transfer types, then both addresses, then both directions.
pub open spec fn endpoint_mismatch(endpoints: Seq<EndpointDescriptor>) -> Option<TopologyMismatch>
    recommends
        endpoints.len() == 2,
{
    let first = endpoints[0];
    let second = endpoints[1];
    if first.transfer_type != TransferType::Interrupt {
        Some(TopologyMismatch::TransferType { index: 0, found: first.transfer_type })
    } else if second.transfer_type != TransferType::Interrupt {
        Some(TopologyMismatch::TransferType { index: 1, found: second.transfer_type })
    } else if first.address != READ_ENDPOINT {
        Some(TopologyMismatch::EndpointAddress { index: 0, found: first.address })
    } else if second.address != WRITE_ENDPOINT {
        Some(TopologyMismatch::EndpointAddress { index: 1, found: second.address })
    } else if first.direction != Direction::In {
        Some(TopologyMismatch::EndpointDirection { index: 0, found: first.direction })
    } else if second.direction != Direction::Out {
        Some(TopologyMismatch::EndpointDirection { index: 1, found: second.direction })
    } else {
        None
    }
}

/// The first expectation that the interface fails, if any.
pub open spec fn interface_mismatch(interface: InterfaceView) -> Option<TopologyMismatch> {
    if interface.number != INTERFACE {
        Some(TopologyMismatch::InterfaceNumber { found: interface.number })
    } else if interface.endpoints.len() != 2 {
        Some(TopologyMismatch::EndpointCount { found: interface.endpoints.len() as usize })
    } else {
        endpoint_mismatch(interface.endpoints)
    }
}

/// The first expectation that the topology fails, if any. The expectations
/// are taken from the outside in: configurations, interfaces, endpoints.
pub open spec fn first_mismatch(topology: TopologyView) -> Option<TopologyMismatch> {
    if topology.configurations.len() != 1 {
        Some(
            TopologyMismatch::ConfigurationCount { found: topology.configurations.len() as usize },
        )
    } else if topology.active_configuration != CONFIGURATION {
        Some(TopologyMismatch::ActiveConfiguration { found: topology.active_configuration })
    } else if topology.configurations[0].interfaces.len() != 1 {
        Some(
            TopologyMismatch::InterfaceCount {
                found: topology.configurations[0].interfaces.len() as usize,
            },
        )
    } else {
        interface_mismatch(topology.configurations[0].interfaces[0])
    }
}

/// What validation returns for a topology: the expected endpoint pair where
/// nothing is amiss, else the first mismatch.
pub open spec fn validation(topology: TopologyView) -> Result<EndpointPair, TopologyMismatch> {
    match first_mismatch(topology) {
        None => Ok(EndpointPair::expected()),
        Some(mismatch) => Err(mismatch),
    }
}

/// Validation is all or nothing. A topology of the accepted shape yields
/// the expected endpoint pair; any deviation from that shape, in a count,
/// a number, a transfer type, an address or a direction, yields a mismatch
/// and no pair at all. No other pair is ever returned.
pub proof fn lemma_validation_is_all_or_nothing(topology: TopologyView)
    ensures
        conforms(topology) ==> validation(topology) == Ok::<EndpointPair, TopologyMismatch>(
            EndpointPair { read_address: READ_ENDPOINT, write_address: WRITE_ENDPOINT },
        ),
        !conforms(topology) ==> validation(topology) is Err,
        first_mismatch(topology) is None <==> conforms(topology),
{
    lemma_no_mismatch_iff_conforms(topology);
}

/// The direction of an endpoint follows from its address. So a topology
/// whose endpoints are well formed, as those of every device are, never
/// fails on a direction: with the expected addresses it has the expected
/// directions.
pub proof fn lemma_direction_follows_address(topology: TopologyView)
    requires
        forall|c: int, i: int, e: int|
            0 <= c < topology.configurations.len() && 0 <= i
                < topology.configurations[c].interfaces.len() && 0 <= e
                < topology.configurations[c].interfaces[i].endpoints.len()
                ==> #[trigger] topology.configurations[c].interfaces[i].endpoints[e].well_formed(),
    ensures
        !(first_mismatch(topology) matches Some(TopologyMismatch::EndpointDirection { .. })),
        expected_endpoint(0).well_formed(),
        expected_endpoint(1).well_formed(),
{
    assert(0x81u8 & 0x80u8 == 0x80u8) by (bit_vector);
    assert(0x02u8 & 0x80u8 != 0x80u8) by (bit_vector);
    if topology.configurations.len() == 1 && topology.configurations[0].interfaces.len() == 1 {
        let endpoints = topology.configurations[0].interfaces[0].endpoints;
        if endpoints.len() == 2 {
            assert(topology.configurations[0].interfaces[0].endpoints[0].well_formed());
            assert(topology.configurations[0].interfaces[0].endpoints[1].well_formed());
        }
    }
}

/// A topology has no mismatch exactly when it has the accepted shape.
proof fn lemma_no_mismatch_iff_conforms(topology: TopologyView)
    ensures
        first_mismatch(topology) is None <==> conforms(topology),
{
    if topology.configurations.len() == 1 && topology.configurations[0].interfaces.len() == 1 {
        let endpoints = topology.configurations[0].interfaces[0].endpoints;
        if endpoints.len() == 2 {
            assert(endpoints =~= seq![expected_endpoint(0), expected_endpoint(1)] <==> (
            endpoints[0] == expected_endpoint(0) && endpoints[1] == expected_endpoint(1)));
        }
    }
}

/// Validates a reported topology in a single pass.
///
/// Returns the endpoint pair to talk through, which is always the expected
/// one, or the first expectation that the topology fails.
pub fn validate_topology(topology: &DeviceTopology) -> (result: Result<
    EndpointPair,
    TopologyMismatch,
>)
    ensures
        result == validation(topology@),
        conforms(topology@) <==> result == Ok::<EndpointPair, TopologyMismatch>(
            EndpointPair::expected(),
        ),
        !conforms(topology@) <==> result is Err,
{
    proof {
        lemma_no_mismatch_iff_conforms(topology@);
    }
    let configurations = topology.num_configurations();
    if configurations != 1 {
        return Err(TopologyMismatch::ConfigurationCount { found: configurations });
    }
    let active = topology.active_configuration();
    if active != CONFIGURATION {
        return Err(TopologyMismatch::ActiveConfiguration { found: active });
    }
    let configuration = match topology.configuration(0) {
        Some(configuration) => configuration,
        None => { return Err(TopologyMismatch::ConfigurationCount { found: configurations }); },
    };
    let interfaces = configuration.num_interfaces();
    if interfaces != 1 {
        return Err(TopologyMismatch::InterfaceCount { found: interfaces });
    }
    let interface = match configuration.interface(0) {
        Some(interface) => interface,
        None => { return Err(TopologyMismatch::InterfaceCount { found: interfaces }); },
    };
    let number = interface.interface_number();
    if number != INTERFACE {
        return Err(TopologyMismatch::InterfaceNumber { found: number });
    }
    let endpoints = interface.num_endpoints();
    if endpoints != 2 {
        return Err(TopologyMismatch::EndpointCount { found: endpoints });
    }
    let (first, second) = match (interface.endpoint(0), interface.endpoint(1)) {
        (Some(first), Some(second)) => (first, second),
        _ => { return Err(TopologyMismatch::EndpointCount { found: endpoints }); },
    };
    if first.transfer_type != TransferType::Interrupt {
        return Err(TopologyMismatch::TransferType { index: 0, found: first.transfer_type });
    }
    if second.transfer_type != TransferType::Interrupt {
        return Err(TopologyMismatch::TransferType { index: 1, found: second.transfer_type });
    }
    if first.address != READ_ENDPOINT {
        return Err(TopologyMismatch::EndpointAddress { index: 0, found: first.address });
    }
    if second.address != WRITE_ENDPOINT {
        return Err(TopologyMismatch::EndpointAddress { index: 1, found: second.address });
    }
    if first.direction != Direction::In {
        return Err(TopologyMismatch::EndpointDirection { index: 0, found: first.direction });
    }
    if second.direction != Direction::Out {
        return Err(TopologyMismatch::EndpointDirection { index: 1, found: second.direction });
    }
    Ok(EndpointPair { read_address: READ_ENDPOINT, write_address: WRITE_ENDPOINT })
}

} // verus!
