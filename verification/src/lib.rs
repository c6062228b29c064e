//! Verified core of the Nintendo Switch (libnx + GLES2) platform layer of the
//! radiance engine: input mapping, application lifecycle, and the decisions the
//! GLES2 backend makes about shaders, materials, vertex layouts and GL state.

pub mod application;
pub mod input;
pub mod imgui_nav;
pub mod vertex;
pub mod texture;
pub mod shader;
pub mod material;
pub mod gl;
pub mod render_object;
pub mod draw;
pub mod factory;
pub mod render_target;
pub mod engine;
pub mod imgui_renderer;
pub mod libc_shims;
pub mod video;
