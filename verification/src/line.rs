//! The settings of a serial line.

use vstd::prelude::*;

verus! {

/// Parity of a serial line.
#[derive(Clone, Copy, Debug, PartialEq, Eq, Structural)]
pub enum Parity {
    Off,
    Odd,
    Even,
}

/// Flow control of a serial line.
#[derive(Clone, Copy, Debug, PartialEq, Eq, Structural)]
pub enum FlowControl {
    Off,
    Software,
    Hardware,
}

/// The settings of a serial line. They are applied together or not at all.
#[derive(Clone, Copy, Debug, PartialEq, Eq, Structural)]
pub struct LineSettings {
    pub baud_rate: u32,
    pub data_bits: u8,
    pub parity: Parity,
    pub stop_bits: u8,
    pub flow_control: FlowControl,
}

impl LineSettings {
    /// The settings of the supported instrument: 9600 baud, 8 data bits, no
    /// parity, 1 stop bit, no flow control.
    pub open spec fn standard() -> LineSettings {
        LineSettings {
            baud_rate: 9600,
            data_bits: 8,
            parity: Parity::Off,
            stop_bits: 1,
            flow_control: FlowControl::Off,
        }
    }

    /// The settings of the supported instrument.
    pub fn of_supported_instrument() -> (settings: LineSettings)
        ensures
            settings == LineSettings::standard(),
    {
        LineSettings {
            baud_rate: 9600,
            data_bits: 8,
            parity: Parity::Off,
            stop_bits: 1,
            flow_control: FlowControl::Off,
        }
    }
}

} // verus!
