//! What a component that takes actions offers.

use vstd::prelude::*;

verus! {

/// A pure updatable component with no side-effect command type.
pub trait UpdatableComponent<Action> {
    /// Apply an action to the component state.
    fn update(&mut self, action: Action);
}

} // verus!
