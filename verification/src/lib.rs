//! A verified model of a minimal GPU shader-program pipeline: compiling
//! shader stages, linking them into a program, resolving attribute and
//! uniform locations, uploading vertex buffers, and issuing a single,
//! correctly ordered draw call.
//!
//! The model device in [`device`] plays the role of a mock graphics
//! backend: every pipeline operation is specified and verified against
//! it. [`commands`] pins down the exact command sequence of one frame,
//! so an unverified front end can replay the plan against a real
//! backend; [`quad`] holds the demo's fixed configuration.

pub mod commands;
pub mod device;
pub mod quad;
pub mod text;
pub mod types;
