//! An accumulator for completion items that are going to be presented to a user.
//!
//! Candidate entities are turned into finished items by renderers, which the
//! caller supplies per entity kind; the accumulator keeps the items that the
//! renderers produce, in the order in which they were added.
pub mod completions;
pub mod item;
pub mod render;
