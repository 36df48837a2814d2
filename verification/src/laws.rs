//! What the operations are for: laws that relate what a caller hands in to what comes out, over
//! all inputs and without looking at how it comes about.

pub mod devices;
pub mod grants;
pub mod input;
pub mod outputs;
pub mod sessions;
pub mod words;
