use vstd::prelude::*;
pub use crate::iobox::{AnalogType, ComediDevice, DigitalType, IOError};

verus! {

/// An analog channel of the simulated I/O box, whose samples are 4-byte words
/// in a file.
#[derive(Clone, Copy, Debug, PartialEq, Eq, Structural)]
pub struct AnalogChannel {
    pub _type: AnalogType,
    pub dev: ComediDevice,
}

impl AnalogChannel {
    pub fn new(_type: AnalogType, dev: ComediDevice) -> (res: Self)
        ensures
            res._type == _type,
            res.dev == dev,
    {
        Self { _type, dev }
    }

    /// The outcome of a read: an output channel cannot be read
    /// (`WriteOnly`); on an input channel a failed file read is a
    /// `ReadError`, otherwise the word read is the sample.
    pub fn read_result(&self, word: Option<u32>) -> (res: Result<u32, IOError>)
        ensures
            self._type is AnalogOut ==> res == Err::<u32, IOError>(IOError::WriteOnly),
            self._type is AnalogIn ==> res == (match word {
                Some(w) => Ok::<u32, IOError>(w),
                None => Err::<u32, IOError>(IOError::ReadError),
            }),
    {
        match self._type {
            AnalogType::AnalogIn(_) => match word {
                Some(w) => Ok(w),
                None => Err(IOError::ReadError),
            },
            AnalogType::AnalogOut(_) => Err(IOError::WriteOnly),
        }
    }

    /// Whether the channel is written to: only output channels are; any
    /// other is refused with `WriteOnly`.
    pub fn write_access(&self) -> (res: Result<(), IOError>)
        ensures
            self._type is AnalogOut ==> res == Ok::<(), IOError>(()),
            self._type is AnalogIn ==> res == Err::<(), IOError>(IOError::WriteOnly),
    {
        match self._type {
            AnalogType::AnalogOut(_) => Ok(()),
            AnalogType::AnalogIn(_) => Err(IOError::WriteOnly),
        }
    }

    /// The outcome of writing to an output channel: a failed file write is a
    /// `WriteError`.
    pub fn write_result(&self, written: bool) -> (res: Result<(), IOError>)
        ensures
            self._type is AnalogIn ==> res == Err::<(), IOError>(IOError::WriteOnly),
            self._type is AnalogOut ==> res == (if written {
                Ok::<(), IOError>(())
            } else {
                Err::<(), IOError>(IOError::WriteError)
            }),
    {
        match self._type {
            AnalogType::AnalogOut(_) => if written {
                Ok(())
            } else {
                Err(IOError::WriteError)
            },
            AnalogType::AnalogIn(_) => Err(IOError::WriteOnly),
        }
    }
}

} // verus!
