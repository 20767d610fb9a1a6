//! Rendering-pipeline orchestration for a single-mesh viewer: shading models,
//! post-processing chains over a ping-pong target pair, and the descriptions
//! of every device resource the viewer needs, all as plain values.

pub mod config;
pub mod object;
pub mod pod;
pub mod renderer;
pub mod viewer;
