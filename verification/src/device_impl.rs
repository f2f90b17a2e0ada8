//! Device implementation: the per-variant channel and position rules, and
//! the driver operations built on them.

use vstd::prelude::*;

use core::marker::PhantomData;

use crate::ic;
use crate::interface::{
    I2cInterface, I2cWrite, SpiInterface, SpiWrite, WriteCommand, lemma_i2c_wire_log_is_bus_log,
    lemma_spi_wire_log_is_bus_log,
};
use crate::private::Sealed;
use crate::{Channel, Command, Error, Mcp4x};

verus! {

/// The channel and position rules of one device variant.
///
/// `valid_channel` and `valid_position` are the variant's rule table; the
/// two check operations decide them, failing with
/// [`Error::WrongChannel`] or [`Error::OutOfBounds`] before any bus traffic
/// is generated. Only this crate's own IC markers implement the trait, so a
/// driver handle can never carry another variant's rules.
pub trait CheckParameters<CommE>: Sealed {
    /// Whether this variant has the requested channel.
    spec fn valid_channel(channel: Channel) -> bool;

    /// Whether this variant accepts the requested wiper position.
    spec fn valid_position(position: u8) -> bool;

    /// Succeeds exactly when this variant has `channel`; fails with
    /// [`Error::WrongChannel`] otherwise.
    fn check_if_channel_is_appropriate(channel: Channel) -> (result: Result<(), Error<CommE>>)
        ensures
            Self::valid_channel(channel) ==> result matches Ok(()),
            !Self::valid_channel(channel) ==> result matches Err(Error::WrongChannel),
    ;

    /// Succeeds exactly when this variant accepts `position`; fails with
    /// [`Error::OutOfBounds`] otherwise.
    fn check_if_position_is_appropriate(position: u8) -> (result: Result<(), Error<CommE>>)
        ensures
            Self::valid_position(position) ==> result matches Ok(()),
            !Self::valid_position(position) ==> result matches Err(Error::OutOfBounds),
    ;
}

impl<CommE> CheckParameters<CommE> for ic::Mcp401x {
    open spec fn valid_channel(channel: Channel) -> bool {
        channel == Channel::Ch0 || channel == Channel::All
    }

    open spec fn valid_position(position: u8) -> bool {
        position <= 127
    }

    fn check_if_channel_is_appropriate(channel: Channel) -> (result: Result<(), Error<CommE>>) {
        if channel == Channel::Ch0 || channel == Channel::All {
            Ok(())
        } else {
            Err(Error::WrongChannel)
        }
    }

    fn check_if_position_is_appropriate(position: u8) -> (result: Result<(), Error<CommE>>) {
        if position <= 127 {
            Ok(())
        } else {
            Err(Error::OutOfBounds)
        }
    }
}

impl<CommE> CheckParameters<CommE> for ic::Mcp41x {
    open spec fn valid_channel(channel: Channel) -> bool {
        channel == Channel::Ch0 || channel == Channel::All
    }

    open spec fn valid_position(position: u8) -> bool {
        true
    }

    fn check_if_channel_is_appropriate(channel: Channel) -> (result: Result<(), Error<CommE>>) {
        if channel == Channel::Ch0 || channel == Channel::All {
            Ok(())
        } else {
            Err(Error::WrongChannel)
        }
    }

    fn check_if_position_is_appropriate(_position: u8) -> (result: Result<(), Error<CommE>>) {
        Ok(())
    }
}

impl<CommE> CheckParameters<CommE> for ic::Mcp42x {
    open spec fn valid_channel(channel: Channel) -> bool {
        true
    }

    open spec fn valid_position(position: u8) -> bool {
        true
    }

    fn check_if_channel_is_appropriate(_channel: Channel) -> (result: Result<(), Error<CommE>>) {
        Ok(())
    }

    fn check_if_position_is_appropriate(_position: u8) -> (result: Result<(), Error<CommE>>) {
        Ok(())
    }
}

impl<DI: WriteCommand, IC> Mcp4x<DI, IC> {
    /// The frames this driver has put on the wire, oldest first.
    pub closed spec fn wire_log(&self) -> Seq<Seq<u8>> {
        self.iface.wire_log()
    }
}

impl<DI, IC> Mcp4x<DI, IC> where
    DI: WriteCommand,
    IC: CheckParameters<<DI as WriteCommand>::CommError>,
 {
    /// Set a channel to a wiper position.
    ///
    /// The channel check runs first, then the position check; a failing
    /// check reports its error and generates no bus traffic. On success
    /// exactly one frame — the set-position command's frame on the bound
    /// transport — goes out; a transport failure is passed through inside
    /// [`Error::Comm`].
    pub fn set_position(&mut self, channel: Channel, position: u8) -> (result: Result<
        (),
        Error<DI::CommError>,
    >)
        ensures
            !IC::valid_channel(channel) ==> (result matches Err(Error::WrongChannel))
                && *final(self) == *old(self),
            IC::valid_channel(channel) && !IC::valid_position(position) ==> (result matches Err(Error::OutOfBounds))
                && *final(self) == *old(self),
            IC::valid_channel(channel) && IC::valid_position(position) ==> (match DI::frame_spec(
                Command::SetPosition(channel, position),
            ) {
                Some(frame) => (match result {
                    Ok(()) => final(self).wire_log() == old(self).wire_log().push(frame),
                    Err(e) => final(self).wire_log() == old(self).wire_log() && e is Comm,
                }),
                None => result matches Err(Error::Unsupported) && final(self).wire_log() == old(
                    self,
                ).wire_log(),
            }),
    {
        match IC::check_if_channel_is_appropriate(channel) {
            Ok(()) => {},
            Err(e) => {
                return Err(e);
            },
        }
        match IC::check_if_position_is_appropriate(position) {
            Ok(()) => {},
            Err(e) => {
                return Err(e);
            },
        }
        self.iface.write_command(Command::SetPosition(channel, position))
    }

    /// Shut a channel down.
    ///
    /// The channel check runs first; a failing check reports
    /// [`Error::WrongChannel`] and generates no bus traffic. On success the
    /// shutdown command's frame on the bound transport goes out — or, where
    /// that transport cannot represent shutdown, the call fails with
    /// [`Error::Unsupported`] and writes nothing.
    pub fn shutdown(&mut self, channel: Channel) -> (result: Result<(), Error<DI::CommError>>)
        ensures
            !IC::valid_channel(channel) ==> (result matches Err(Error::WrongChannel))
                && *final(self) == *old(self),
            IC::valid_channel(channel) ==> (match DI::frame_spec(Command::Shutdown(channel)) {
                Some(frame) => (match result {
                    Ok(()) => final(self).wire_log() == old(self).wire_log().push(frame),
                    Err(e) => final(self).wire_log() == old(self).wire_log() && e is Comm,
                }),
                None => result matches Err(Error::Unsupported) && final(self).wire_log() == old(
                    self,
                ).wire_log(),
            }),
    {
        match IC::check_if_channel_is_appropriate(channel) {
            Ok(()) => {},
            Err(e) => {
                return Err(e);
            },
        }
        self.iface.write_command(Command::Shutdown(channel))
    }
}

impl<I2C> Mcp4x<I2cInterface<I2C>, ic::Mcp401x> {
    /// The bus this driver handle owns.
    pub closed spec fn bus(&self) -> I2C {
        self.iface.bus()
    }

    /// Create a new MCP401x device instance, taking ownership of the
    /// two-wire bus.
    pub fn new_mcp401x(i2c: I2C) -> (driver: Self)
        ensures
            driver.bus() == i2c,
    {
        Mcp4x { iface: I2cInterface::new(i2c), _ic: PhantomData }
    }

    /// Destroy the driver instance and return the two-wire bus it was
    /// created with.
    pub fn destroy_mcp401x(self) -> (i2c: I2C)
        ensures
            i2c == self.bus(),
    {
        self.iface.into_bus()
    }
}

impl<SPI> Mcp4x<SpiInterface<SPI>, ic::Mcp41x> {
    /// The bus this driver handle owns.
    pub closed spec fn bus(&self) -> SPI {
        self.iface.bus()
    }

    /// Create a new MCP41x device instance, taking ownership of the SPI
    /// bus.
    pub fn new_mcp41x(spi: SPI) -> (driver: Self)
        ensures
            driver.bus() == spi,
    {
        Mcp4x { iface: SpiInterface::new(spi), _ic: PhantomData }
    }

    /// Destroy the driver instance and return the SPI bus it was created
    /// with.
    pub fn destroy_mcp41x(self) -> (spi: SPI)
        ensures
            spi == self.bus(),
    {
        self.iface.into_bus()
    }
}

impl<SPI> Mcp4x<SpiInterface<SPI>, ic::Mcp42x> {
    /// The bus this driver handle owns.
    pub closed spec fn bus(&self) -> SPI {
        self.iface.bus()
    }

    /// Create a new MCP42x device instance, taking ownership of the SPI
    /// bus.
    pub fn new_mcp42x(spi: SPI) -> (driver: Self)
        ensures
            driver.bus() == spi,
    {
        Mcp4x { iface: SpiInterface::new(spi), _ic: PhantomData }
    }

    /// Destroy the driver instance and return the SPI bus it was created
    /// with.
    pub fn destroy_mcp42x(self) -> (spi: SPI)
        ensures
            spi == self.bus(),
    {
        self.iface.into_bus()
    }
}

/// What an MCP401x driver has put on the wire is exactly what its two-wire
/// bus transmitted, with the addresses dropped.
pub proof fn lemma_mcp401x_wire_log_is_bus_log<I2C: I2cWrite>(
    driver: Mcp4x<I2cInterface<I2C>, ic::Mcp401x>,
)
    ensures
        driver.wire_log() == driver.bus().written().map_values(|entry: (u8, Seq<u8>)| entry.1),
{
    lemma_i2c_wire_log_is_bus_log(driver.iface);
}

/// What an MCP41x driver has put on the wire is exactly what its SPI bus
/// transmitted.
pub proof fn lemma_mcp41x_wire_log_is_bus_log<SPI: SpiWrite>(
    driver: Mcp4x<SpiInterface<SPI>, ic::Mcp41x>,
)
    ensures
        driver.wire_log() == driver.bus().written(),
{
    lemma_spi_wire_log_is_bus_log(driver.iface);
}

/// What an MCP42x driver has put on the wire is exactly what its SPI bus
/// transmitted.
pub proof fn lemma_mcp42x_wire_log_is_bus_log<SPI: SpiWrite>(
    driver: Mcp4x<SpiInterface<SPI>, ic::Mcp42x>,
)
    ensures
        driver.wire_log() == driver.bus().written(),
{
    lemma_spi_wire_log_is_bus_log(driver.iface);
}

/// The rule table of the MCP401x variant: channels `Ch0` and `All` (which,
/// with one channel, addresses channel 0), positions 0–127.
pub proof fn lemma_mcp401x_rules<CommE>(channel: Channel, position: u8)
    ensures
        <ic::Mcp401x as CheckParameters<CommE>>::valid_channel(channel) <==> (channel
            == Channel::Ch0 || channel == Channel::All),
        <ic::Mcp401x as CheckParameters<CommE>>::valid_position(position) <==> position <= 127,
{
}

/// The rule table of the MCP41x variant: channels `Ch0` and `All` (which,
/// with one channel, addresses channel 0), every position 0–255.
pub proof fn lemma_mcp41x_rules<CommE>(channel: Channel, position: u8)
    ensures
        <ic::Mcp41x as CheckParameters<CommE>>::valid_channel(channel) <==> (channel
            == Channel::Ch0 || channel == Channel::All),
        <ic::Mcp41x as CheckParameters<CommE>>::valid_position(position),
{
}

/// The rule table of the MCP42x variant: every channel — `Ch0`, `Ch1` and
/// the `All` broadcast — and every position 0–255.
pub proof fn lemma_mcp42x_rules<CommE>(channel: Channel, position: u8)
    ensures
        <ic::Mcp42x as CheckParameters<CommE>>::valid_channel(channel),
        <ic::Mcp42x as CheckParameters<CommE>>::valid_position(position),
{
}

} // verus!
