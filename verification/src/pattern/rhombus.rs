//! The rhombus base pattern: Manhattan distance from the grid center,
//! normalized so the grid edges' midpoints are at level one.

use vstd::prelude::*;
use crate::pattern::{create_spec, Config, Pattern, PatternTree};

verus! {

/// A factory for the rhombus pattern.
#[derive(Copy, Clone, Debug)]
pub struct RhombusFactory;

impl RhombusFactory {
    /// Creates a new factory.
    pub fn new() -> (f: RhombusFactory) {
        RhombusFactory
    }

    /// Creates a new rhombus pattern bound to the given configuration.
    pub fn create(&self, config: &Config) -> (p: Pattern)
        requires
            config.usable(),
        ensures
            p == create_spec(PatternTree::Rhombus, *config),
            p.wf(),
    {
        PatternTree::Rhombus.create(config)
    }
}

} // verus!
