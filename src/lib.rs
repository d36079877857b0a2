//! Resource and frame-presentation core of a 2D rendering layer.
//!
//! The library holds the decisions of the GPU core as verified logic over
//! plain values: adapter and memory-type selection, row-pitch and staging
//! layout for texture uploads, swapchain negotiation, the frame-in-flight
//! state machine and the recovery policy of the façade. The calls into the
//! graphics driver are made by the caller, who hands the library what the
//! driver reported and performs the actions the library returns.
use vstd::prelude::*;

pub mod context;
pub mod error;
pub mod gpu;
pub mod graphics;
pub mod memory;
pub mod swapchain;
pub mod texture;
