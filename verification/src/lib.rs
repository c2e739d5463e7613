//! Verified core of a single-mesh, double-buffered GPU renderer.
//!
//! The crate models the resource- and frame-lifecycle layer of a renderer
//! built on an explicit graphics API: memory-type selection, staged uploads,
//! mip-chain generation plans, swapchain negotiation, render-pass and
//! pipeline descriptions, command recording, and per-frame fence/semaphore
//! discipline. Everything here is plain data and decisions; the thin shell
//! that issues the actual device calls lives outside the verified library.

pub mod adapter;
pub mod commands;
pub mod descriptors;
pub mod device;
pub mod frame;
pub mod images;
pub mod memory;
pub mod mip;
pub mod pipeline;
pub mod renderer;
pub mod renderpass;
pub mod staging;
pub mod swapchain;
pub mod texture;
