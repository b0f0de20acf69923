//! A minimal real-time rendering loop, modelled as data: validated geometry, a
//! linked shader interface, the ordered GPU submission sequence of one frame,
//! and the state machine that drives frames from window events.

pub mod driver;
pub mod mesh;
pub mod pipeline;
pub mod shader;
pub mod tess;
