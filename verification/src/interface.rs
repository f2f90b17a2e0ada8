//! Bus transports.
//!
//! The driver needs exactly one capability from the outside world: put a
//! frame on the bus. [`SpiWrite`] and [`I2cWrite`] state that capability for
//! the two bus kinds; callers implement one of them for whatever drives
//! their hardware. [`SpiInterface`] and [`I2cInterface`] wrap such a bus and
//! turn a [`Command`] into the bit-exact frame of their wire format.

use vstd::prelude::*;
use vstd::assert_seqs_equal;

use crate::private::Sealed;
use crate::{Channel, Command, Error, spec_command_byte, spec_data_byte};

verus! {

/// The fixed 7-bit bus address of the two-wire device variant.
pub const I2C_DEVICE_ADDRESS: u8 = 0b0101111;

/// A transport that can put one frame on an SPI-style bus.
///
/// A write either transmits the whole frame or reports an error; a write
/// that fails counts as not performed, so `written` never holds a partial
/// frame.
pub trait SpiWrite: Sized {
    /// The transport's own error type; the driver passes it through
    /// unchanged inside [`Error::Comm`].
    type BusError;

    /// The frames transmitted so far, oldest first.
    spec fn written(&self) -> Seq<Seq<u8>>;

    /// Transmit `data` as one frame.
    fn write(&mut self, data: &[u8]) -> (result: Result<(), Self::BusError>)
        ensures
            result matches Ok(()) ==> final(self).written() == old(self).written().push(data@),
            result matches Err(_) ==> final(self).written() == old(self).written(),
    ;
}

/// A transport that can put one frame on a two-wire bus, addressed to one
/// device.
///
/// A write either transmits the whole frame or reports an error; a write
/// that fails counts as not performed, so `written` never holds a partial
/// frame.
pub trait I2cWrite: Sized {
    /// The transport's own error type; the driver passes it through
    /// unchanged inside [`Error::Comm`].
    type BusError;

    /// The frames transmitted so far, oldest first, each with the 7-bit
    /// address it went to.
    spec fn written(&self) -> Seq<(u8, Seq<u8>)>;

    /// Transmit `data` as one frame to the device at `address`.
    fn write(&mut self, address: u8, data: &[u8]) -> (result: Result<(), Self::BusError>)
        ensures
            result matches Ok(()) ==> final(self).written() == old(self).written().push(
                (address, data@),
            ),
            result matches Err(_) ==> final(self).written() == old(self).written(),
    ;
}

/// Performs a command on the bus, in the wire format of one transport kind.
///
/// Only this crate's own interface types implement it. `frame_spec` names
/// the frame a command takes on the wire — `None` where the transport
/// cannot represent the command — and `write_command` transmits exactly
/// that frame or fails without writing.
pub trait WriteCommand: Sealed + Sized {
    /// The underlying bus error type, carried inside [`Error::Comm`].
    type CommError;

    /// The frames this interface has put on the wire, oldest first.
    spec fn wire_log(&self) -> Seq<Seq<u8>>;

    /// The frame `command` takes on this transport's wire format, or `None`
    /// where the transport has no representation for it.
    spec fn frame_spec(command: Command) -> Option<Seq<u8>>;

    /// Build the wire frame for `command` and transmit it.
    fn write_command(&mut self, command: Command) -> (result: Result<(), Error<Self::CommError>>)
        ensures
            (match Self::frame_spec(command) {
                Some(frame) => (match result {
                    Ok(()) => final(self).wire_log() == old(self).wire_log().push(frame),
                    Err(e) => final(self).wire_log() == old(self).wire_log() && e is Comm,
                }),
                None => result matches Err(Error::Unsupported) && final(self).wire_log() == old(
                    self,
                ).wire_log(),
            }),
    ;
}

/// SPI interface: two-byte frames, command byte then data byte.
#[derive(Debug, Default)]
pub struct SpiInterface<SPI> {
    pub(crate) spi: SPI,
}

/// I2C interface: one-byte frames to the fixed device address; only
/// set-position commands are representable.
#[derive(Debug, Default)]
pub struct I2cInterface<I2C> {
    pub(crate) i2c: I2C,
}

impl<SPI> Sealed for SpiInterface<SPI> {}

impl<I2C> Sealed for I2cInterface<I2C> {}

impl<SPI> SpiInterface<SPI> {
    /// The bus this interface wraps.
    pub closed spec fn bus(&self) -> SPI {
        self.spi
    }

    /// Wrap `spi`.
    pub(crate) fn new(spi: SPI) -> (iface: Self)
        ensures
            iface.bus() == spi,
    {
        SpiInterface { spi }
    }

    /// Unwrap this interface, returning the bus it was built from.
    pub(crate) fn into_bus(self) -> (spi: SPI)
        ensures
            spi == self.bus(),
    {
        self.spi
    }
}

impl<I2C> I2cInterface<I2C> {
    /// The bus this interface wraps.
    pub closed spec fn bus(&self) -> I2C {
        self.i2c
    }

    /// Wrap `i2c`.
    pub(crate) fn new(i2c: I2C) -> (iface: Self)
        ensures
            iface.bus() == i2c,
    {
        I2cInterface { i2c }
    }

    /// Unwrap this interface, returning the bus it was built from.
    pub(crate) fn into_bus(self) -> (i2c: I2C)
        ensures
            i2c == self.bus(),
    {
        self.i2c
    }
}

impl<SPI: SpiWrite> WriteCommand for SpiInterface<SPI> {
    type CommError = SPI::BusError;

    closed spec fn wire_log(&self) -> Seq<Seq<u8>> {
        self.spi.written()
    }

    open spec fn frame_spec(command: Command) -> Option<Seq<u8>> {
        Some(seq![spec_command_byte(command), spec_data_byte(command)])
    }

    fn write_command(&mut self, command: Command) -> (result: Result<
        (),
        Error<Self::CommError>,
    >) {
        let mut payload: Vec<u8> = Vec::new();
        payload.push(command.get_command_byte());
        payload.push(command.get_data_byte());
        assert(payload@ =~= seq![spec_command_byte(command), spec_data_byte(command)]);
        match self.spi.write(payload.as_slice()) {
            Ok(()) => Ok(()),
            Err(e) => Err(Error::Comm(e)),
        }
    }
}

impl<I2C: I2cWrite> WriteCommand for I2cInterface<I2C> {
    type CommError = I2C::BusError;

    closed spec fn wire_log(&self) -> Seq<Seq<u8>> {
        self.i2c.written().map_values(|entry: (u8, Seq<u8>)| entry.1)
    }

    open spec fn frame_spec(command: Command) -> Option<Seq<u8>> {
        match command {
            Command::SetPosition(_, position) => Some(seq![position]),
            Command::Shutdown(_) => None,
        }
    }

    fn write_command(&mut self, command: Command) -> (result: Result<(), Error<Self::CommError>>)
        ensures
            (match command {
                Command::SetPosition(_, position) => (match result {
                    Ok(()) => final(self).bus().written() == old(self).bus().written().push(
                        (I2C_DEVICE_ADDRESS, seq![position]),
                    ),
                    Err(_) => final(self).bus().written() == old(self).bus().written(),
                }),
                Command::Shutdown(_) => *final(self) == *old(self),
            }),
    {
        match command {
            Command::SetPosition(_, position) => {
                let mut frame: Vec<u8> = Vec::new();
                frame.push(position);
                assert(frame@ =~= seq![position]);
                match self.i2c.write(I2C_DEVICE_ADDRESS, frame.as_slice()) {
                    Ok(()) => {
                        proof {
                            assert_seqs_equal!(
                                final(self).wire_log(),
                                old(self).wire_log().push(seq![position])
                            );
                        }
                        Ok(())
                    },
                    Err(e) => Err(Error::Comm(e)),
                }
            },
            Command::Shutdown(_) => Err(Error::Unsupported),
        }
    }
}

/// The frames an SPI interface has put on the wire are exactly the frames
/// its bus transmitted.
pub proof fn lemma_spi_wire_log_is_bus_log<SPI: SpiWrite>(iface: SpiInterface<SPI>)
    ensures
        iface.wire_log() == iface.bus().written(),
{
}

/// The frames a two-wire interface has put on the wire are exactly the
/// frames its bus transmitted, with their addresses dropped.
pub proof fn lemma_i2c_wire_log_is_bus_log<I2C: I2cWrite>(iface: I2cInterface<I2C>)
    ensures
        iface.wire_log() == iface.bus().written().map_values(|entry: (u8, Seq<u8>)| entry.1),
{
}

/// Shutdown has no representation on the two-wire transport: whatever the
/// channel, the two-wire wire format assigns a shutdown command no frame,
/// so `write_command` on an [`I2cInterface`] fails with
/// [`Error::Unsupported`] and puts nothing on the bus.
pub proof fn lemma_shutdown_has_no_two_wire_frame<I2C: I2cWrite>(channel: Channel)
    ensures
        <I2cInterface<I2C> as WriteCommand>::frame_spec(Command::Shutdown(channel)) is None,
{
}

} // verus!
