//! Verified control logic of the ball-and-beam laboratory process: operating
//! modes, reference modes, analog channel bookkeeping and the operator
//! console's selection and key handling.

pub mod mode;
pub mod ref_mode;
pub mod selection;
pub mod strings;
pub mod console;
pub mod console_laws;
pub mod iobox;
pub mod sim;
