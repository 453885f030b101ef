//! The circle base pattern: distance from the grid center, normalized so
//! that the corners of the grid are at level one.

use vstd::prelude::*;
use crate::pattern::{create_spec, Config, Pattern, PatternTree};

verus! {

/// A factory for the circle pattern.
#[derive(Copy, Clone, Debug)]
pub struct CircleFactory;

impl CircleFactory {
    /// Creates a new factory.
    pub fn new() -> (f: CircleFactory) {
        CircleFactory
    }

    /// Creates a new circle pattern bound to the given configuration.
    pub fn create(&self, config: &Config) -> (p: Pattern)
        requires
            config.usable(),
        ensures
            p == create_spec(PatternTree::Circle, *config),
            p.wf(),
    {
        PatternTree::Circle.create(config)
    }
}

impl Default for CircleFactory {
    /// Creates a new factory.
    fn default() -> (f: CircleFactory) {
        CircleFactory
    }
}

} // verus!
