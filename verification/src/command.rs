//! The commands that are sent, as the exact bytes that go on the wire.

use vstd::prelude::*;

verus! {

/// Length of a command frame and of a response frame on the USB transport.
pub const FRAME_LEN: usize = 8;

/// Most bytes that an identification reply is read into on the serial line.
pub const IDENTIFY_REPLY_MAX: usize = 255;

/// The commands this crate knows how to send.
#[derive(Clone, Copy, Debug, PartialEq, Eq, Structural)]
pub enum Command {
    /// Sub-command 0: initialise and read the digital state. The device takes
    /// the frame and answers nothing.
    Init,
    /// Sub-command 1: disable the watchdog and report the firmware version.
    QueryFirmware,
    /// The identification query of the serial instrument, `*IDN` and a line feed.
    Identify,
}

impl Command {
    /// The bytes that stand for the command on the wire. A frame begins
    /// with its sub-command and holds one marker byte, `0x57` or `0x53`;
    /// the bytes are literal, and no checksum is computed.
    pub open spec fn wire(self) -> Seq<u8> {
        match self {
            Command::Init => seq![0x00u8, 0x00u8, 0x00u8, 0x00u8, 0x00u8, 0x57u8, 0x00u8, 0x00u8],
            Command::QueryFirmware => seq![
                0x01u8,
                0x00u8,
                0x00u8,
                0x00u8,
                0x00u8,
                0x53u8,
                0x00u8,
                0x00u8,
            ],
            Command::Identify => seq![0x2Au8, 0x49u8, 0x44u8, 0x4Eu8, 0x0Au8],
        }
    }

    /// Whether the command travels as a fixed frame.
    pub open spec fn is_frame(self) -> bool {
        self != Command::Identify
    }

    /// Encodes the command.
    pub fn encode(self) -> (bytes: Vec<u8>)
        ensures
            bytes@ == self.wire(),
            self.is_frame() ==> bytes@.len() == FRAME_LEN,
    {
        match self {
            Command::Init => vec![0x00u8, 0x00u8, 0x00u8, 0x00u8, 0x00u8, 0x57u8, 0x00u8, 0x00u8],
            Command::QueryFirmware => vec![
                0x01u8,
                0x00u8,
                0x00u8,
                0x00u8,
                0x00u8,
                0x53u8,
                0x00u8,
                0x00u8,
            ],
            Command::Identify => vec![0x2Au8, 0x49u8, 0x44u8, 0x4Eu8, 0x0Au8],
        }
    }
}

} // verus!
