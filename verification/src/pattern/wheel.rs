//! The wheel base pattern: a full angular sweep around the grid center,
//! mapped to one unit.

use vstd::prelude::*;
use crate::pattern::{create_spec, Config, Pattern, PatternTree};

verus! {

/// A factory for the wheel pattern.
#[derive(Copy, Clone, Debug)]
pub struct WheelFactory;

impl WheelFactory {
    /// Creates a new factory.
    pub fn new() -> (f: WheelFactory) {
        WheelFactory
    }

    /// Creates a new wheel pattern bound to the given configuration.
    pub fn create(&self, config: &Config) -> (p: Pattern)
        requires
            config.usable(),
        ensures
            p == create_spec(PatternTree::Wheel, *config),
            p.wf(),
    {
        PatternTree::Wheel.create(config)
    }
}

} // verus!
