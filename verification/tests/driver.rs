//! Driver flows over recording buses: the exact frames each operation puts
//! on the wire, the checks that stop bus traffic, and construction and
//! teardown returning the bus unchanged.

use mcp4x::recorder::{I2cRecorder, SpiRecorder};
use mcp4x::{Channel, Error, Mcp4x};

fn spi_bus() -> SpiRecorder {
    SpiRecorder { frames: Vec::new(), fail_writes: false }
}

fn i2c_bus() -> I2cRecorder {
    I2cRecorder { frames: Vec::new(), fail_writes: false }
}

#[test]
fn mcp41x_set_position_writes_one_frame() {
    let mut driver = Mcp4x::new_mcp41x(spi_bus());
    assert!(matches!(driver.set_position(Channel::Ch0, 64), Ok(())));
    let bus = driver.destroy_mcp41x();
    assert_eq!(bus.frames, vec![vec![0b0001_0001, 64]]);
}

#[test]
fn mcp41x_accepts_every_position_on_the_wire() {
    let mut driver = Mcp4x::new_mcp41x(spi_bus());
    assert!(matches!(driver.set_position(Channel::Ch0, 255), Ok(())));
    let bus = driver.destroy_mcp41x();
    assert_eq!(bus.frames, vec![vec![0b0001_0001, 255]]);
}

#[test]
fn mcp41x_rejects_second_channel_without_bus_traffic() {
    let mut driver = Mcp4x::new_mcp41x(spi_bus());
    assert!(matches!(driver.set_position(Channel::Ch1, 64), Err(Error::WrongChannel)));
    assert!(matches!(driver.shutdown(Channel::Ch1), Err(Error::WrongChannel)));
    let bus = driver.destroy_mcp41x();
    assert_eq!(bus.frames, Vec::<Vec<u8>>::new());
}

#[test]
fn mcp41x_shutdown_writes_one_frame() {
    let mut driver = Mcp4x::new_mcp41x(spi_bus());
    assert!(matches!(driver.shutdown(Channel::Ch0), Ok(())));
    let bus = driver.destroy_mcp41x();
    assert_eq!(bus.frames, vec![vec![0b0010_0001, 0]]);
}

#[test]
fn mcp41x_passes_bus_error_through() {
    let mut driver = Mcp4x::new_mcp41x(SpiRecorder { frames: Vec::new(), fail_writes: true });
    assert!(matches!(driver.set_position(Channel::Ch0, 64), Err(Error::Comm(()))));
    let bus = driver.destroy_mcp41x();
    assert_eq!(bus.frames, Vec::<Vec<u8>>::new());
}

#[test]
fn mcp41x_round_trip_returns_the_same_bus() {
    let mut bus = spi_bus();
    bus.frames.push(vec![0xAA, 0x55]);
    let expected = SpiRecorder { frames: vec![vec![0xAA, 0x55]], fail_writes: false };
    let driver = Mcp4x::new_mcp41x(bus);
    let returned = driver.destroy_mcp41x();
    assert_eq!(expected, returned);
}

#[test]
fn mcp42x_addresses_both_channels() {
    let mut driver = Mcp4x::new_mcp42x(spi_bus());
    assert!(matches!(driver.set_position(Channel::Ch0, 10), Ok(())));
    assert!(matches!(driver.set_position(Channel::Ch1, 20), Ok(())));
    assert!(matches!(driver.set_position(Channel::All, 30), Ok(())));
    assert!(matches!(driver.shutdown(Channel::All), Ok(())));
    let bus = driver.destroy_mcp42x();
    assert_eq!(
        bus.frames,
        vec![
            vec![0b0001_0001, 10],
            vec![0b0001_0010, 20],
            vec![0b0001_0011, 30],
            vec![0b0010_0011, 0],
        ]
    );
}

#[test]
fn mcp42x_round_trip_returns_the_same_bus() {
    let driver = Mcp4x::new_mcp42x(spi_bus());
    let returned = driver.destroy_mcp42x();
    assert_eq!(spi_bus(), returned);
}

#[test]
fn mcp401x_set_position_writes_to_the_fixed_address() {
    let mut driver = Mcp4x::new_mcp401x(i2c_bus());
    assert!(matches!(driver.set_position(Channel::Ch0, 100), Ok(())));
    assert!(matches!(driver.set_position(Channel::All, 127), Ok(())));
    let bus = driver.destroy_mcp401x();
    assert_eq!(bus.frames, vec![(0b0101111, vec![100]), (0b0101111, vec![127])]);
}

#[test]
fn mcp401x_rejects_positions_past_127_without_bus_traffic() {
    let mut driver = Mcp4x::new_mcp401x(i2c_bus());
    assert!(matches!(driver.set_position(Channel::Ch0, 128), Err(Error::OutOfBounds)));
    assert!(matches!(driver.set_position(Channel::Ch0, 255), Err(Error::OutOfBounds)));
    let bus = driver.destroy_mcp401x();
    assert_eq!(bus.frames, Vec::<(u8, Vec<u8>)>::new());
}

#[test]
fn mcp401x_reports_wrong_channel_before_out_of_bounds() {
    let mut driver = Mcp4x::new_mcp401x(i2c_bus());
    assert!(matches!(driver.set_position(Channel::Ch1, 200), Err(Error::WrongChannel)));
    let bus = driver.destroy_mcp401x();
    assert_eq!(bus.frames, Vec::<(u8, Vec<u8>)>::new());
}

#[test]
fn mcp401x_shutdown_is_unsupported_on_every_valid_channel() {
    let mut driver = Mcp4x::new_mcp401x(i2c_bus());
    assert!(matches!(driver.shutdown(Channel::Ch0), Err(Error::Unsupported)));
    assert!(matches!(driver.shutdown(Channel::All), Err(Error::Unsupported)));
    assert!(matches!(driver.shutdown(Channel::Ch1), Err(Error::WrongChannel)));
    let bus = driver.destroy_mcp401x();
    assert_eq!(bus.frames, Vec::<(u8, Vec<u8>)>::new());
}

#[test]
fn mcp401x_passes_bus_error_through() {
    let mut driver = Mcp4x::new_mcp401x(I2cRecorder { frames: Vec::new(), fail_writes: true });
    assert!(matches!(driver.set_position(Channel::Ch0, 5), Err(Error::Comm(()))));
    let bus = driver.destroy_mcp401x();
    assert_eq!(bus.frames, Vec::<(u8, Vec<u8>)>::new());
}

#[test]
fn mcp401x_round_trip_returns_the_same_bus() {
    let mut bus = i2c_bus();
    bus.frames.push((7, vec![1]));
    let expected = I2cRecorder { frames: vec![(7, vec![1])], fail_writes: false };
    let driver = Mcp4x::new_mcp401x(bus);
    let returned = driver.destroy_mcp401x();
    assert_eq!(expected, returned);
}
