//! The line base pattern: the x-coordinate, normalized by the grid width.

use vstd::prelude::*;
use crate::pattern::{create_spec, Config, Pattern, PatternTree};

verus! {

/// A factory for the line pattern.
#[derive(Copy, Clone, Debug)]
pub struct LineFactory;

impl LineFactory {
    /// Creates a new factory.
    pub fn new() -> (f: LineFactory) {
        LineFactory
    }

    /// Creates a new line pattern bound to the given configuration.
    pub fn create(&self, config: &Config) -> (p: Pattern)
        requires
            config.usable(),
        ensures
            p == create_spec(PatternTree::Line, *config),
            p.wf(),
    {
        PatternTree::Line.create(config)
    }
}

} // verus!
