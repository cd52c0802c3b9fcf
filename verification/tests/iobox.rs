use real_time_project::iobox::{
    AnalogChannel, AnalogType, ComediDevice, DataAddress, IOError, InputRange, Sample, MAX_VAL,
};
use real_time_project::sim;

fn device() -> ComediDevice {
    ComediDevice::new(0, 2, 1)
}

#[test]
fn max_val_is_sixteen_bits() {
    assert_eq!(MAX_VAL, 65535);
}

#[test]
fn input_channel_read_address() {
    let chan = AnalogChannel::new(AnalogType::AnalogIn(1), device());
    assert_eq!(
        chan.read_address(),
        Ok(DataAddress { subdev: 0, chan: 1, range: 2, aref: 1 })
    );
}

#[test]
fn output_channel_cannot_be_read() {
    let chan = AnalogChannel::new(AnalogType::AnalogOut(1), device());
    assert_eq!(chan.read_address(), Err(IOError::WriteOnly));
    assert_eq!(chan.read_result(0, 7), Err(IOError::WriteOnly));
}

#[test]
fn input_channel_cannot_be_written() {
    let chan = AnalogChannel::new(AnalogType::AnalogIn(0), device());
    assert_eq!(chan.write_address(), Err(IOError::ReadOnly));
    assert_eq!(chan.write_result(0, 7), Err(IOError::ReadOnly));
}

#[test]
fn read_result_picks_range_by_channel() {
    let angle = AnalogChannel::new(AnalogType::AnalogIn(0), device());
    let pos = AnalogChannel::new(AnalogType::AnalogIn(1), device());
    assert_eq!(angle.read_result(0, 1234), Ok(Sample { raw: 1234, range: InputRange::Wide }));
    assert_eq!(pos.read_result(3, 99), Ok(Sample { raw: 99, range: InputRange::Narrow }));
}

#[test]
fn negative_status_is_read_error() {
    let chan = AnalogChannel::new(AnalogType::AnalogIn(0), device());
    assert_eq!(chan.read_result(-1, 1234), Err(IOError::ReadError));
}

#[test]
fn write_address_and_result() {
    let chan = AnalogChannel::new(AnalogType::AnalogOut(1), ComediDevice::new(1, 0, 0));
    assert_eq!(
        chan.write_address(),
        Ok(DataAddress { subdev: 1, chan: 1, range: 0, aref: 0 })
    );
    assert_eq!(chan.write_result(1, 32767), Ok(32767));
    assert_eq!(chan.write_result(-5, 32767), Err(IOError::WriteError));
}

#[test]
fn sim_channel_read_and_write() {
    let input = sim::AnalogChannel::new(AnalogType::AnalogIn(0), device());
    let output = sim::AnalogChannel::new(AnalogType::AnalogOut(0), device());
    assert_eq!(input.read_result(Some(100)), Ok(100));
    assert_eq!(input.read_result(None), Err(IOError::ReadError));
    assert_eq!(output.read_result(Some(100)), Err(IOError::WriteOnly));
    assert_eq!(output.write_access(), Ok(()));
    assert_eq!(input.write_access(), Err(IOError::WriteOnly));
    assert_eq!(output.write_result(true), Ok(()));
    assert_eq!(output.write_result(false), Err(IOError::WriteError));
    assert_eq!(input.write_result(true), Err(IOError::WriteOnly));
}
