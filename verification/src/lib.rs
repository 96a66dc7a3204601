use vstd::prelude::*;

pub mod aggregator;
pub mod commands;
pub mod executor;
pub mod json;
pub mod laws;
pub mod registry;
pub mod resolver;
pub mod token;

verus! {

/// A resolution or registry error: these abort a command before any
/// per-target work starts.
#[derive(Clone, Copy, Debug, PartialEq, Eq, Structural)]
pub enum EngineError {
    /// The referenced cluster identifier is not registered.
    NotFound,
    /// A registration collided with an existing identifier.
    DuplicateIdentifier,
    /// No explicit target was given and no cluster is active.
    NoActiveCluster,
    /// Resolution produced an empty target set where one was required.
    NoMatchingClusters,
}

} // verus!
