use vstd::prelude::*;

verus! {

/// Largest raw sample value of the 16-bit converters.
pub const MAX_VAL: u32 = 65535;

/// Direction and channel number of an analog channel.
#[derive(Clone, Copy, Debug, PartialEq, Eq, Structural)]
pub enum AnalogType {
    AnalogIn(u32),
    AnalogOut(u32),
}

/// Direction and channel number of a digital channel.
#[derive(Clone, Copy, Debug, PartialEq, Eq, Structural)]
pub enum DigitalType {
    DigitalIn(u32),
    DigitalOut(u32),
}

/// Why an access to the I/O box failed.
#[derive(Clone, Copy, Debug, PartialEq, Eq, Structural)]
pub enum IOError {
    ReadOnly,
    WriteOnly,
    ReadError,
    WriteError,
    PortNotOpen,
    DeviceError,
}

/// Subdevice, range and analog reference of a comedi device; the open device
/// handle itself is kept by the program that does the I/O.
#[derive(Clone, Copy, Debug, PartialEq, Eq, Structural)]
pub struct ComediDevice {
    pub subdev: u32,
    pub range: u32,
    pub aref: u32,
}

impl ComediDevice {
    pub fn new(subdev: u32, range: u32, aref: u32) -> (res: Self)
        ensures
            res.subdev == subdev,
            res.range == range,
            res.aref == aref,
    {
        ComediDevice { subdev, range, aref }
    }
}

/// Everything a single-sample read or write on the device is addressed by.
#[derive(Clone, Copy, Debug, PartialEq, Eq, Structural)]
pub struct DataAddress {
    pub subdev: u32,
    pub chan: u32,
    pub range: u32,
    pub aref: u32,
}

/// The physical range a raw input sample is scaled to: channel 0 reads in
/// the wide range (-10 V to 10 V), every other channel in the narrow range
/// (-5 V to 5 V).
#[derive(Clone, Copy, Debug, PartialEq, Eq, Structural)]
pub enum InputRange {
    Wide,
    Narrow,
}

/// A raw input sample and the range it is to be scaled to.
#[derive(Clone, Copy, Debug, PartialEq, Eq, Structural)]
pub struct Sample {
    pub raw: u32,
    pub range: InputRange,
}

/// The range channel `chan` is read in.
pub open spec fn spec_input_range(chan: u32) -> InputRange {
    if chan == 0 { InputRange::Wide } else { InputRange::Narrow }
}

/// An analog channel of the I/O box.
#[derive(Clone, Copy, Debug, PartialEq, Eq, Structural)]
pub struct AnalogChannel {
    pub _type: AnalogType,
    pub dev: ComediDevice,
}

/// The address a channel of type `t` on `dev` is accessed at.
pub open spec fn address_of(t: AnalogType, dev: ComediDevice) -> DataAddress {
    let chan = match t {
        AnalogType::AnalogIn(c) => c,
        AnalogType::AnalogOut(c) => c,
    };
    DataAddress { subdev: dev.subdev, chan: chan, range: dev.range, aref: dev.aref }
}

impl AnalogChannel {
    pub fn new(_type: AnalogType, dev: ComediDevice) -> (res: Self)
        ensures
            res._type == _type,
            res.dev == dev,
    {
        Self { _type, dev }
    }

    /// Where to read a sample: an input channel gives its address, an output
    /// channel cannot be read (`WriteOnly`).
    pub fn read_address(&self) -> (res: Result<DataAddress, IOError>)
        ensures
            self._type is AnalogIn ==> res == Ok::<DataAddress, IOError>(address_of(self._type, self.dev)),
            self._type is AnalogOut ==> res == Err::<DataAddress, IOError>(IOError::WriteOnly),
    {
        match self._type {
            AnalogType::AnalogIn(chan) => Ok(
                DataAddress { subdev: self.dev.subdev, chan, range: self.dev.range, aref: self.dev.aref },
            ),
            AnalogType::AnalogOut(_) => Err(IOError::WriteOnly),
        }
    }

    /// The outcome of a read that the device answered with status `retval`
    /// and raw value `data`: a negative status is a `ReadError`, otherwise the
    /// raw value together with the range of the channel.
    pub fn read_result(&self, retval: i32, data: u32) -> (res: Result<Sample, IOError>)
        ensures
            match self._type {
                AnalogType::AnalogIn(chan) => if retval < 0 {
                    res == Err::<Sample, IOError>(IOError::ReadError)
                } else {
                    res == Ok::<Sample, IOError>(Sample { raw: data, range: spec_input_range(chan) })
                },
                AnalogType::AnalogOut(_) => res == Err::<Sample, IOError>(IOError::WriteOnly),
            },
    {
        match self._type {
            AnalogType::AnalogIn(chan) => {
                if retval < 0 {
                    return Err(IOError::ReadError);
                }
                let range = if chan == 0 { InputRange::Wide } else { InputRange::Narrow };
                Ok(Sample { raw: data, range })
            },
            AnalogType::AnalogOut(_) => Err(IOError::WriteOnly),
        }
    }

    /// Where to write a sample: an output channel gives its address, an
    /// input channel cannot be written (`ReadOnly`).
    pub fn write_address(&self) -> (res: Result<DataAddress, IOError>)
        ensures
            self._type is AnalogOut ==> res == Ok::<DataAddress, IOError>(address_of(self._type, self.dev)),
            self._type is AnalogIn ==> res == Err::<DataAddress, IOError>(IOError::ReadOnly),
    {
        match self._type {
            AnalogType::AnalogOut(chan) => Ok(
                DataAddress { subdev: self.dev.subdev, chan, range: self.dev.range, aref: self.dev.aref },
            ),
            AnalogType::AnalogIn(_) => Err(IOError::ReadOnly),
        }
    }

    /// The outcome of writing raw value `w_val`, which the device answered
    /// with status `retval`: a negative status is a `WriteError`, otherwise
    /// the value written.
    pub fn write_result(&self, retval: i32, w_val: u32) -> (res: Result<u32, IOError>)
        ensures
            self._type is AnalogOut && retval < 0 ==> res == Err::<u32, IOError>(IOError::WriteError),
            self._type is AnalogOut && retval >= 0 ==> res == Ok::<u32, IOError>(w_val),
            self._type is AnalogIn ==> res == Err::<u32, IOError>(IOError::ReadOnly),
    {
        match self._type {
            AnalogType::AnalogOut(_) => {
                if retval < 0 {
                    Err(IOError::WriteError)
                } else {
                    Ok(w_val)
                }
            },
            AnalogType::AnalogIn(_) => Err(IOError::ReadOnly),
        }
    }
}

/// A digital channel of the I/O box.
#[derive(Clone, Copy, Debug, PartialEq, Eq, Structural)]
pub struct DigitalChannel {
    pub _type: DigitalType,
    pub dev: ComediDevice,
}


/// Law: a channel is addressed on its device's subdevice, range and analog
/// reference, with its own channel number, the same way for inputs and
/// outputs.
pub proof fn lemma_address_layout(c: u32, dev: ComediDevice)
    ensures
        address_of(AnalogType::AnalogIn(c), dev) == (DataAddress {
            subdev: dev.subdev,
            chan: c,
            range: dev.range,
            aref: dev.aref,
        }),
        address_of(AnalogType::AnalogOut(c), dev) == (DataAddress {
            subdev: dev.subdev,
            chan: c,
            range: dev.range,
            aref: dev.aref,
        }),
{
}

/// Law: channel 0 is read in the wide range and every other channel in the
/// narrow range.
pub proof fn lemma_input_range_by_channel(c: u32)
    ensures
        (spec_input_range(c) == InputRange::Wide) <==> c == 0,
        c != 0 ==> spec_input_range(c) == InputRange::Narrow,
{
}

} // verus!
