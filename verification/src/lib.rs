//! Presentation core of a GPU-backed rendering surface.
//!
//! The library owns the decision logic of the renderer lifecycle: building
//! the surface configuration, the resize policy, the per-frame error
//! classification, and the shutdown sequence. The surrounding event pump
//! performs the actual driver calls and hands their outcomes back to the
//! library as plain values.

pub mod events;
pub mod renderer;
pub mod texture;
