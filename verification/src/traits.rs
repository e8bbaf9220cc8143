//! Markers for the interfaces that elements and views of the UI toolkit offer.

use vstd::prelude::*;

verus! {

/// Marks what can be rendered.
pub struct RenderTrait {}

/// Marks what can be dispatched as an action.
pub struct ActionTrait {}

/// Marks what can be styled.
pub struct StyledTrait {}

/// Marks what takes part in interaction.
pub struct InteractiveTrait {}

} // verus!
