//! The core of a live shader-preview runner: the uniform block that a fragment
//! program reads, the configuration of the presentation surface, and the
//! state machine that turns window events into the work of each frame.

pub mod binary32;
pub mod driver;
pub mod launch;
pub mod pipeline;
pub mod surface;
pub mod trace;
pub mod uniforms;
