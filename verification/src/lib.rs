//! The logic of a renderer for user-supplied fragment shaders on quads.
//!
//! A widget follows the mouse and asks a renderer for one quad per draw
//! ([`wgsl_shader_quad`], [`renderer`]). The quads of a frame become instance
//! records ([`layer`]) that the pipeline manager cuts into draw calls, one run
//! of instances with a common shader at a time ([`pipeline`], [`batch`]).
//! Shaders are told apart by the hash of their source ([`shader`]).
//!
//! Nothing here touches a device or a file. The library says what is to be
//! compiled, bound, written and drawn, and in which order; its caller does it.

pub mod batch;
pub mod geometry;
pub mod layer;
pub mod layout;
pub mod outside;
pub mod pipeline;
pub mod primitive;
pub mod renderer;
pub mod shader;
pub mod uniforms;
pub mod wgsl_shader_quad;
pub mod wire;
