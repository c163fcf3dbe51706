//! Frame-resource and render/compute orchestration for a GPU renderer.
//!
//! The crate models the state that drives a frame: a registry of named
//! resources, a scene of render and compute objects, a camera with a
//! dirty-flagged uniform buffer, and an aspect-corrected fullscreen quad.
//! Frame composition produces an explicit command sequence; an embedding
//! executes those commands against a real GPU device.

pub mod camera;
pub mod commands;
pub mod compute_object;
pub mod error;
pub mod frame;
pub mod material;
pub mod mesh;
pub mod model;
pub mod quad;
pub mod render_object;
pub mod renderer;
pub mod resources;
pub mod scene;
pub mod shader;
pub mod shader_data;
mod text;
pub mod texture;
pub mod vertex;
pub mod viewport;
