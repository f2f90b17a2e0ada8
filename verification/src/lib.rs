//! Driver for the MCP41XXX/MCP42XXX family of digital potentiometers.
//!
//! The devices expose up to two wiper channels. The driver translates the two
//! high-level operations — set a channel to a wiper position, and shut a
//! channel down — into the exact bytes the device expects on the wire, and
//! rejects channels and positions that the selected device variant does not
//! have, before any bus traffic is generated.
//!
//! Three device variants are supported, each bound to the driver handle at
//! the type level through a marker in [`ic`]:
//! - MCP401x: single channel over a two-wire bus, positions 0–127;
//! - MCP41x: single channel over SPI, the full 0–255 position range;
//! - MCP42x: two channels over SPI, the full 0–255 position range.
//!
//! The bus itself stands behind the small write-only traits in
//! [`interface`]: callers hand the driver any transport that can put a frame
//! on the wire, and get it back when the driver is destroyed.

use vstd::prelude::*;

pub mod device_impl;
pub mod ic;
pub mod interface;
mod private;
pub mod recorder;

use core::marker::PhantomData;

verus! {

/// All possible errors in this crate.
#[derive(Debug)]
pub enum Error<E> {
    /// The bus transport reported a failure; the inner error is passed
    /// through unchanged.
    Comm(E),
    /// The requested channel does not exist on the selected device variant.
    WrongChannel,
    /// The requested wiper position exceeds the range the selected device
    /// variant accepts.
    OutOfBounds,
    /// The requested operation has no representation on the active transport.
    Unsupported,
}

/// Channel selector.
#[derive(Debug, Clone, Copy, PartialEq, Eq, Structural)]
pub enum Channel {
    /// Channel 0.
    Ch0,
    /// Channel 1 (only on dual-channel devices).
    Ch1,
    /// Every channel the device has.
    ///
    /// On the wire this is one combined command whose channel selector is
    /// the bitwise OR of both channel bits; single-channel parts ignore the
    /// bit for the channel they lack.
    All,
}

/// The bit pattern standing for `channel` in the low bits of a command byte.
///
/// The pattern is fixed and device-independent: only the legality of a
/// channel depends on the device variant.
pub open spec fn spec_channel_bits(channel: Channel) -> u8 {
    match channel {
        Channel::Ch0 => 1,
        Channel::Ch1 => 2,
        Channel::All => 3,
    }
}

impl Channel {
    /// The channel-selector bits of this channel, as placed in the low bits
    /// of a command byte.
    pub fn get_bits(self) -> (bits: u8)
        ensures
            bits == spec_channel_bits(self),
    {
        match self {
            Channel::Ch0 => 1,
            Channel::Ch1 => 2,
            Channel::All => 3,
        }
    }
}

/// A single device command: exactly the two operations the devices know.
pub enum Command {
    /// Set a channel to a wiper position.
    SetPosition(Channel, u8),
    /// Shut a channel down.
    Shutdown(Channel),
}

/// The command byte of `command`: the high nibble selects the operation,
/// the low bits select the channel.
pub open spec fn spec_command_byte(command: Command) -> u8 {
    match command {
        Command::SetPosition(channel, _) => 0b0001_0000u8 | spec_channel_bits(channel),
        Command::Shutdown(channel) => 0b0010_0000u8 | spec_channel_bits(channel),
    }
}

/// The data byte of `command`: the requested position for a set-position
/// command, zero for a shutdown command.
pub open spec fn spec_data_byte(command: Command) -> u8 {
    match command {
        Command::SetPosition(_, position) => position,
        Command::Shutdown(_) => 0,
    }
}

impl Command {
    /// The channel this command addresses.
    pub open spec fn spec_channel(self) -> Channel {
        match self {
            Command::SetPosition(channel, _) => channel,
            Command::Shutdown(channel) => channel,
        }
    }

    /// The command byte of this command.
    pub fn get_command_byte(&self) -> (command_byte: u8)
        ensures
            command_byte == spec_command_byte(*self),
    {
        match *self {
            Command::SetPosition(channel, _) => 0b0001_0000 | channel.get_bits(),
            Command::Shutdown(channel) => 0b0010_0000 | channel.get_bits(),
        }
    }

    /// The data byte of this command.
    pub fn get_data_byte(&self) -> (data_byte: u8)
        ensures
            data_byte == spec_data_byte(*self),
    {
        match *self {
            Command::SetPosition(_, position) => position,
            Command::Shutdown(_) => 0,
        }
    }
}

/// Command-byte encoding is injective per operation and channel: two
/// commands that encode to the same command byte perform the same operation
/// on the same channel. It is deterministic as well, being a function of
/// the command alone.
pub proof fn lemma_command_byte_injective(a: Command, b: Command)
    ensures
        spec_command_byte(a) == spec_command_byte(b) ==> ((a is SetPosition <==> b is SetPosition)
            && a.spec_channel() == b.spec_channel()),
{
    assert(0b0001_0000u8 | 1u8 == 0x11u8 && 0b0001_0000u8 | 2u8 == 0x12u8
        && 0b0001_0000u8 | 3u8 == 0x13u8 && 0b0010_0000u8 | 1u8 == 0x21u8
        && 0b0010_0000u8 | 2u8 == 0x22u8 && 0b0010_0000u8 | 3u8 == 0x23u8) by (bit_vector);
}

/// MCP4x digital potentiometer driver.
///
/// The handle owns its bus transport `DI` exclusively for its lifetime; the
/// marker `IC` binds it to one device variant and so to one set of channel
/// and position rules, fixed at construction.
#[derive(Debug, Default)]
pub struct Mcp4x<DI, IC> {
    pub(crate) iface: DI,
    pub(crate) _ic: PhantomData<IC>,
}

} // verus!
