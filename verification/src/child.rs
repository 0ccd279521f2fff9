//! The reconciliation policy attached to a child resource type.

use vstd::prelude::*;

verus! {

/// How a managed child resource is brought back to the desired state.
#[derive(Debug, Clone, Copy, PartialEq, Eq, Structural)]
pub enum UpdateStrategy {
    /// Delete the child, then create it anew.
    Recreate,
    /// Replace the child in place with the desired object.
    Replace,
    /// Never update an existing child; act only when it is absent.
    OnDelete,
}

/// The policy for one child resource type.
#[derive(Debug, Clone, Copy, PartialEq, Eq, Structural)]
pub struct ChildConfig {
    pub update_strategy: UpdateStrategy,
}

impl ChildConfig {
    /// A policy with the given update strategy.
    pub fn new(update_strategy: UpdateStrategy) -> (config: ChildConfig)
        ensures
            config.update_strategy == update_strategy,
    {
        ChildConfig { update_strategy }
    }

    /// The policy that deletes and re-creates a drifted child.
    pub fn recreate() -> (config: ChildConfig)
        ensures
            config.update_strategy == UpdateStrategy::Recreate,
    {
        ChildConfig::new(UpdateStrategy::Recreate)
    }

    /// The policy that replaces a drifted child in place.
    pub fn replace() -> (config: ChildConfig)
        ensures
            config.update_strategy == UpdateStrategy::Replace,
    {
        ChildConfig::new(UpdateStrategy::Replace)
    }

    /// The policy that leaves an existing child alone.
    pub fn on_delete() -> (config: ChildConfig)
        ensures
            config.update_strategy == UpdateStrategy::OnDelete,
    {
        ChildConfig::new(UpdateStrategy::OnDelete)
    }
}

} // verus!
