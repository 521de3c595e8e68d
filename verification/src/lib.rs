//! Core logic for integrating a temporal super-resolution upscaler into a
//! real-time rendering frame loop: jitter-sequence and derived-parameter
//! computation, resource translation, barrier tracking, and per-frame
//! dispatch planning.
//!
//! All quantities are modelled over plain integers and exact rationals; the
//! thin layer that talks to the GPU and to the native upscaler SDK lives
//! outside this crate and consumes the plans produced here.

mod barrier;
mod context;
mod dims;
mod error;
mod jitter;
mod matrix;
mod rational;
mod resource;

pub use crate::barrier::Barriers;
pub use crate::context::Fsr2Context;
pub use crate::context::Fsr2DispatchDescription;
pub use crate::context::Fsr2Exposure;
pub use crate::context::Fsr2FramePlan;
pub use crate::context::Fsr2InitializationFlags;
pub use crate::context::Fsr2QualityMode;
pub use crate::context::Fsr2ReactiveMask;
pub use crate::context::Fsr2RenderParameters;
pub use crate::dims::Coords2;
pub use crate::dims::Resolution;
pub use crate::error::Fsr2Error;
pub use crate::jitter::camera_jitter_offset;
pub use crate::jitter::jitter_phase_count;
pub use crate::jitter::JITTER_PHASE_LIMIT;
pub use crate::matrix::Mat4;
pub use crate::matrix::Vec4;
pub use crate::rational::Rat;
pub use crate::resource::translate_texture;
pub use crate::resource::Fsr2Texture;
pub use crate::resource::ResourceDescriptor;
pub use crate::resource::ResourceState;
pub use crate::resource::FORMAT_UNDEFINED;
