use vstd::prelude::*;

verus! {

/// Operating mode of the regulator.
#[derive(Clone, Copy, Debug, PartialEq, Eq, Structural)]
pub enum Mode {
    OFF,
    BEAM,
    BALL,
}

/// Holds the current operating mode of the regulator.
///
/// The regulator thread and the operator console share one monitor; the
/// sharing (lock and wake-up of waiting threads) is done by the program that
/// owns both threads.
pub struct ModeMonitor {
    pub mode: Mode,
}

impl View for ModeMonitor {
    type V = Mode;

    open spec fn view(&self) -> Mode {
        self.mode
    }
}

impl ModeMonitor {
    /// A new monitor starts in `Mode::OFF`.
    pub fn new() -> (res: Self)
        ensures
            res@ == Mode::OFF,
    {
        Self { mode: Mode::OFF }
    }

    /// Sets the mode; a later `get_mode` returns `m` until it is set again.
    pub fn set_mode(&mut self, m: Mode)
        ensures
            final(self)@ == m,
    {
        self.mode = m;
    }

    /// The mode most recently set (or `OFF` if it never was).
    pub fn get_mode(&self) -> (res: Mode)
        ensures
            res == self@,
    {
        self.mode
    }
}

} // verus!
