//! An embedded triangle renderer for an immediate-mode window.
//!
//! The library decides what the graphics context must do: how the shader
//! program is built (a state machine driven by the context's answers), which
//! commands draw one frame, how the colour animation advances, and which
//! objects a teardown releases. The host executes those commands against a
//! real OpenGL context. Colour channels and coordinates are fixed-point values
//! in hundredths (`100` stands for `1.0`).

pub mod animation;
pub mod shader;
pub mod program;
pub mod renderer;

pub use animation::AnimationState;
pub use program::{BuildAction, BuildEvent, BuildPhase, ProgramBuild};
pub use renderer::{GlCommand, GlHandles, RotatingTriangle, quad_indices, quad_vertex_coords};
pub use shader::{Dialect, ShaderStage, shader_source_text};
