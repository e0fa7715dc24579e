//! Verified orchestration core of a GPU volume renderer.
//!
//! The renderer raymarches a density volume in a compute pass and shows the
//! result in a render pass. This library decides what that takes: which
//! bindings each resource needs and which slot each gets (`gpu_resources`,
//! `demos`), what the uploads and textures look like (`volume_data`,
//! `gpu_resources`), how many workgroups cover the output (`demos::pipeline`),
//! in which order a frame is computed, rendered and presented (`event_loop`),
//! and how the surface follows the window (`gpu_context`). It works on plain
//! descriptions of GPU objects (`gpu`); creating the objects and submitting
//! the work is left to the application.

pub mod benchmark;
pub mod cli;
pub mod demos;
pub mod event_loop;
pub mod gpu;
pub mod gpu_context;
pub mod gpu_resources;
pub mod render_pipeline;
pub mod screenshot;
pub mod segments;
pub mod state;
pub mod volume_data;
