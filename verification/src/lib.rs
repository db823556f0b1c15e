//! Verified core of a GPU resource manager.
//!
//! The library models the decisions and data movement of a renderer's
//! resource subsystem: selecting a device memory type, laying pixel rows
//! out in a pitch-aligned staging buffer, sequencing the one-shot transfer
//! commands of a synchronous upload, writing a texture's descriptor set,
//! and ordering teardown. Everything the device itself does (creating
//! handles, allocating, submitting) happens outside, driven by the plans
//! and step sequences this library computes and proves correct.

use vstd::prelude::*;

pub mod buffer_bundle;
pub mod errors;
pub mod loaded_image;
pub mod memory;
pub mod staging;

verus! {

/// Marker for the renderer that registers textures; the registry itself
/// lives outside this library.
pub struct RendererComponent;

} // verus!
