//! Interfaces that chip and board code implement.
use vstd::prelude::*;

verus! {

/// Hardware that is set up from a configuration value.
pub trait Controller {
    /// The configuration the hardware takes.
    type Config;

    /// Applies `config` to the hardware.
    fn configure(&self, config: Self::Config);
}

} // verus!
