//! Wire encoding of commands: command byte and data byte per operation and
//! channel.

use mcp4x::{Channel, Command};

#[test]
fn can_set_position_ch0() {
    let cmd = Command::SetPosition(Channel::Ch0, 127);
    assert_eq!(0b0001_0001, cmd.get_command_byte());
    assert_eq!(127, cmd.get_data_byte());
}

#[test]
fn can_set_position_ch1() {
    let cmd = Command::SetPosition(Channel::Ch1, 127);
    assert_eq!(0b0001_0010, cmd.get_command_byte());
    assert_eq!(127, cmd.get_data_byte());
}

#[test]
fn can_set_position_all_channels() {
    let cmd = Command::SetPosition(Channel::All, 64);
    assert_eq!(0b0001_0011, cmd.get_command_byte());
    assert_eq!(64, cmd.get_data_byte());
}

#[test]
fn can_shutdown_ch_0() {
    let cmd = Command::Shutdown(Channel::Ch0);
    assert_eq!(0b0010_0001, cmd.get_command_byte());
    assert_eq!(0, cmd.get_data_byte());
}

#[test]
fn can_shutdown_ch_1() {
    let cmd = Command::Shutdown(Channel::Ch1);
    assert_eq!(0b0010_0010, cmd.get_command_byte());
    assert_eq!(0, cmd.get_data_byte());
}

#[test]
fn can_shutdown_all_channels() {
    let cmd = Command::Shutdown(Channel::All);
    assert_eq!(0b0010_0011, cmd.get_command_byte());
    assert_eq!(0, cmd.get_data_byte());
}

#[test]
fn channel_bits_are_fixed() {
    assert_eq!(1, Channel::Ch0.get_bits());
    assert_eq!(2, Channel::Ch1.get_bits());
    assert_eq!(3, Channel::All.get_bits());
}

#[test]
fn command_bytes_are_distinct_per_operation_and_channel() {
    let commands = [
        Command::SetPosition(Channel::Ch0, 9),
        Command::SetPosition(Channel::Ch1, 9),
        Command::SetPosition(Channel::All, 9),
        Command::Shutdown(Channel::Ch0),
        Command::Shutdown(Channel::Ch1),
        Command::Shutdown(Channel::All),
    ];
    for i in 0..commands.len() {
        for j in 0..commands.len() {
            if i != j {
                assert_ne!(commands[i].get_command_byte(), commands[j].get_command_byte());
            }
        }
    }
}

#[test]
fn data_byte_ignores_channel() {
    assert_eq!(
        Command::SetPosition(Channel::Ch0, 200).get_data_byte(),
        Command::SetPosition(Channel::Ch1, 200).get_data_byte()
    );
}
