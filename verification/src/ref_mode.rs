use vstd::prelude::*;

verus! {

/// How the reference generator shapes the reference signal.
#[derive(Clone, Copy, Debug, PartialEq, Eq, Structural)]
pub enum RefMode {
    MANUAL,
    SQUARE,
    OPTIMAL,
}

/// Holds the current reference mode.
///
/// The reference generator and the operator console share one monitor; the
/// sharing itself is done by the program that owns both threads.
pub struct RefModeMonitor {
    pub mode: RefMode,
}

impl View for RefModeMonitor {
    type V = RefMode;

    open spec fn view(&self) -> RefMode {
        self.mode
    }
}

impl RefModeMonitor {
    /// A monitor holding `rmode`.
    pub fn new(rmode: RefMode) -> (res: Self)
        ensures
            res@ == rmode,
    {
        Self { mode: rmode }
    }

    /// Sets the reference mode.
    pub fn set_mode(&mut self, m: RefMode)
        ensures
            final(self)@ == m,
    {
        self.mode = m;
    }

    /// The held reference mode.
    pub fn get_ref(&self) -> (res: &RefMode)
        ensures
            *res == self@,
    {
        &self.mode
    }
}

} // verus!
