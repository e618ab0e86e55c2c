//! The descriptor tree of a USB device, as far as session establishment reads it:
//! one configuration, its interfaces, and their endpoints.

use vstd::prelude::*;

verus! {

/// How an endpoint moves data.
#[derive(Clone, Copy, Debug, PartialEq, Eq, Structural)]
pub enum TransferType {
    Control,
    Isochronous,
    Bulk,
    Interrupt,
}

/// Which way an endpoint moves data, seen from the host.
#[derive(Clone, Copy, Debug, PartialEq, Eq, Structural)]
pub enum Direction {
    In,
    Out,
}

/// The bit of an endpoint address that is set for a device-to-host endpoint.
pub const DIRECTION_BIT: u8 = 0x80;

impl Direction {
    /// The direction that an endpoint address encodes in its high bit.
    pub open spec fn encoded_in(address: u8) -> Direction {
        if address & DIRECTION_BIT == DIRECTION_BIT {
            Direction::In
        } else {
            Direction::Out
        }
    }

    /// Reads the direction out of an endpoint address.
    pub fn of_address(address: u8) -> (direction: Direction)
        ensures
            direction == Direction::encoded_in(address),
            direction == Direction::In <==> address >= 128,
    {
        assert((address & 0x80u8 == 0x80u8) <==> address >= 128u8) by (bit_vector);
        if address & DIRECTION_BIT == DIRECTION_BIT {
            Direction::In
        } else {
            Direction::Out
        }
    }
}

/// One endpoint of an interface.
#[derive(Clone, Copy, Debug, PartialEq, Eq, Structural)]
pub struct EndpointDescriptor {
    pub address: u8,
    pub direction: Direction,
    pub transfer_type: TransferType,
}

impl EndpointDescriptor {
    /// Whether the direction is the one that the address encodes. Every
    /// endpoint that a device reports is so.
    pub open spec fn well_formed(self) -> bool {
        self.direction == Direction::encoded_in(self.address)
    }

    /// The endpoint with this address and transfer type. Its direction is
    /// read out of the address.
    pub fn with_address(address: u8, transfer_type: TransferType) -> (endpoint: EndpointDescriptor)
        ensures
            endpoint == (EndpointDescriptor {
                address,
                direction: Direction::encoded_in(address),
                transfer_type,
            }),
            endpoint.well_formed(),
    {
        EndpointDescriptor { address, direction: Direction::of_address(address), transfer_type }
    }
}

/// What an interface descriptor says, as a mathematical value.
pub struct InterfaceView {
    pub number: u8,
    pub endpoints: Seq<EndpointDescriptor>,
}

/// One interface of a configuration, in its first alternate setting.
#[derive(Clone, Debug, PartialEq, Eq)]
pub struct InterfaceDescriptor {
    number: u8,
    endpoints: Vec<EndpointDescriptor>,
}

impl View for InterfaceDescriptor {
    type V = InterfaceView;

    closed spec fn view(&self) -> InterfaceView {
        InterfaceView { number: self.number, endpoints: self.endpoints@ }
    }
}

impl InterfaceDescriptor {
    /// An interface with the given number and endpoints, in enumeration order.
    pub fn new(number: u8, endpoints: Vec<EndpointDescriptor>) -> (interface: Self)
        ensures
            interface@ == (InterfaceView { number, endpoints: endpoints@ }),
    {
        InterfaceDescriptor { number, endpoints }
    }

    /// The interface's number.
    pub fn interface_number(&self) -> (number: u8)
        ensures
            number == self@.number,
    {
        self.number
    }

    /// How many endpoints the interface exposes.
    pub fn num_endpoints(&self) -> (count: usize)
        ensures
            count == self@.endpoints.len(),
    {
        self.endpoints.len()
    }

    /// The endpoint at `index` in enumeration order, if there is one.
    pub fn endpoint(&self, index: usize) -> (endpoint: Option<EndpointDescriptor>)
        ensures
            index < self@.endpoints.len() ==> endpoint == Some(self@.endpoints[index as int]),
            index >= self@.endpoints.len() ==> endpoint is None,
    {
        if index < self.endpoints.len() {
            Some(self.endpoints[index])
        } else {
            None
        }
    }
}

/// What a configuration descriptor says, as a mathematical value.
pub struct ConfigurationView {
    pub interfaces: Seq<InterfaceView>,
}

/// One configuration of a device: its interfaces in enumeration order.
#[derive(Clone, Debug, PartialEq, Eq)]
pub struct ConfigDescriptor {
    interfaces: Vec<InterfaceDescriptor>,
}

/// The views of a run of interfaces, one for one.
pub open spec fn interface_views(interfaces: Seq<InterfaceDescriptor>) -> Seq<InterfaceView> {
    Seq::new(interfaces.len(), |i: int| interfaces[i]@)
}

impl View for ConfigDescriptor {
    type V = ConfigurationView;

    closed spec fn view(&self) -> ConfigurationView {
        ConfigurationView { interfaces: interface_views(self.interfaces@) }
    }
}

impl ConfigDescriptor {
    /// A configuration with the given interfaces, in enumeration order.
    pub fn new(interfaces: Vec<InterfaceDescriptor>) -> (configuration: Self)
        ensures
            configuration@ == (ConfigurationView { interfaces: interface_views(interfaces@) }),
    {
        ConfigDescriptor { interfaces }
    }

    /// How many interfaces the configuration offers.
    pub fn num_interfaces(&self) -> (count: usize)
        ensures
            count == self@.interfaces.len(),
    {
        self.interfaces.len()
    }

    /// The interface at `index` in enumeration order, if there is one.
    pub fn interface(&self, index: usize) -> (interface: Option<&InterfaceDescriptor>)
        ensures
            index < self@.interfaces.len() ==> (interface matches Some(found) && found@
                == self@.interfaces[index as int]),
            index >= self@.interfaces.len() ==> interface is None,
    {
        if index < self.interfaces.len() {
            Some(&self.interfaces[index])
        } else {
            None
        }
    }
}

/// What a device reports of its shape, as a mathematical value.
pub struct TopologyView {
    pub active_configuration: u8,
    pub configurations: Seq<ConfigurationView>,
}

/// The shape a device reports: which configuration is active, and the
/// descriptors of the configurations it offers, in index order.
#[derive(Clone, Debug, PartialEq, Eq)]
pub struct DeviceTopology {
    active_configuration: u8,
    configurations: Vec<ConfigDescriptor>,
}

/// The views of a run of configurations, one for one.
pub open spec fn configuration_views(configurations: Seq<ConfigDescriptor>) -> Seq<
    ConfigurationView,
> {
    Seq::new(configurations.len(), |i: int| configurations[i]@)
}

impl View for DeviceTopology {
    type V = TopologyView;

    closed spec fn view(&self) -> TopologyView {
        TopologyView {
            active_configuration: self.active_configuration,
            configurations: configuration_views(self.configurations@),
        }
    }
}

impl DeviceTopology {
    /// A topology with the given active configuration and configurations.
    pub fn new(active_configuration: u8, configurations: Vec<ConfigDescriptor>) -> (topology: Self)
        ensures
            topology@ == (TopologyView {
                active_configuration,
                configurations: configuration_views(configurations@),
            }),
    {
        DeviceTopology { active_configuration, configurations }
    }

    /// The index of the configuration the device reports as active.
    pub fn active_configuration(&self) -> (index: u8)
        ensures
            index == self@.active_configuration,
    {
        self.active_configuration
    }

    /// How many configurations the device offers.
    pub fn num_configurations(&self) -> (count: usize)
        ensures
            count == self@.configurations.len(),
    {
        self.configurations.len()
    }

    /// The configuration at `index`, if the device offers one there.
    pub fn configuration(&self, index: usize) -> (configuration: Option<&ConfigDescriptor>)
        ensures
            index < self@.configurations.len() ==> (configuration matches Some(found) && found@
                == self@.configurations[index as int]),
            index >= self@.configurations.len() ==> configuration is None,
    {
        if index < self.configurations.len() {
            Some(&self.configurations[index])
        } else {
            None
        }
    }
}

} // verus!
