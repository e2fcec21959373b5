//! Core of a parametric-curve renderer: an ordered registry of named, bounded,
//! optionally self-animating scalar parameters; a packer that lays their
//! current values out in registry order for the GPU uniform block; a clock
//! that counts presented frames; and the shader hot-reload state machine that
//! retries compilation on a fixed cadence and falls back to the last working
//! program on failure.
//!
//! Scalar values are carried as opaque 32-bit patterns (the IEEE 754 single
//! precision encoding used by the GPU). The core never does arithmetic on
//! them: it stores, routes and packs them bit-exactly, which is precisely the
//! layout contract the shader depends on. The presentation layer owns all
//! numeric evaluation (animation formulas, aspect ratio, frame time).

pub mod anim;
pub mod clock;
pub mod packer;
pub mod param;
pub mod registry;
pub mod reload;
pub mod render;
pub mod schema;

pub use anim::AnimFn;
pub use clock::AnimationClock;
pub use packer::UniformPacker;
pub use param::RangedValue;
pub use registry::ParameterRegistry;
pub use reload::{PipelineError, ReloadScheduler, ShaderProgram, ShaderSlot};
pub use render::RenderLoop;
