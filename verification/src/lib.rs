//! Frame presentation core of a Vulkan renderer: swapchain bookkeeping,
//! frame targets, command stream composition and frame-in-flight pacing,
//! stated over plain values so that every decision is verified.

pub mod camera;
pub mod color;
pub mod command;
pub mod composer;
pub mod events;
pub mod geometry;
pub mod image;
pub mod pipeline;
pub mod presenter;
pub mod renderer;
pub mod swapchain;
pub mod target;
pub mod vk;
