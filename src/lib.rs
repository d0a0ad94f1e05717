//! Keeps track of the state bound in a command buffer builder, so that objects
//! that are already bound need not be bound again.

pub mod cacher;
pub mod dynamic;
pub mod laws;
pub mod sets;

pub use cacher::{IndexType, StateCacher, StateCacherDescriptorSets, StateCacherOutcome};
pub use dynamic::{DynamicState, Scissor, Viewport};
