use vstd::prelude::*;

verus! {

/// Scaffold of the Qt data engine for high-frequency trading feeds; it
/// holds no state yet.
pub struct QtDataEngine {}

impl QtDataEngine {
    /// The engine scaffold.
    pub fn new() -> (engine: Self)
        ensures
            engine == (QtDataEngine {}),
    {
        QtDataEngine {}
    }

    /// Processes the data feed; the scaffold does nothing yet.
    pub fn process_data_feed(&mut self)
        ensures
            *final(self) == *old(self),
    {
    }
}

} // verus!
