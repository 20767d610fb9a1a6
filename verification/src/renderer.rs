//! The renderer: what the device is asked to create, and what each frame
//! draws. Every function here computes a description; the device work itself
//! is left to the caller.

pub mod frame;
pub mod plan;
pub mod post;
pub mod uniform;
pub mod vertex;
