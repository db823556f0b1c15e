//! The error taxonomy of the resource subsystem.
//!
//! Every device-facing step that can fail maps to exactly one variant, so a
//! caller receives a single categorized error per failed operation. Only the
//! kinds are modeled here; message formatting is left to the caller.

use vstd::prelude::*;

verus! {

/// Failure while creating a buffer handle.
#[derive(Clone, Copy, Debug, PartialEq, Eq, Structural)]
pub enum BufferBundleError {
    /// The device refused to create the buffer.
    Creation,
}

/// Allocation-class failures of a buffer or image resource. These are fatal
/// for the call and never retried: a retry without freeing earlier attempts
/// would leak.
#[derive(Clone, Copy, Debug, PartialEq, Eq, Structural)]
pub enum BufferError {
    /// No memory type satisfies the resource's type mask and the required
    /// property flags.
    MemoryId,
    /// The device could not allocate memory of the required size.
    Allocate,
    /// Binding the allocation to the resource handle failed.
    Bind,
}

/// Failures of image creation and of the staging upload pipeline.
#[derive(Clone, Copy, Debug, PartialEq, Eq, Structural)]
pub enum LoadedImageError {
    /// Mapping the staging buffer for writing failed.
    AcquireMappingWriter,
    /// Unmapping the staging buffer failed.
    ReleaseMappingWriter,
    /// The device refused to create the image handle.
    CreateImage,
    /// The device refused to create the image view.
    ImageView,
    /// The device refused to create the sampler.
    Sampler,
    /// Allocating the descriptor set from the pipeline collaborator failed.
    DescriptorAllocation,
    /// Creating the upload fence failed.
    UploadFence,
    /// Waiting on the upload fence failed; the upload's completion guarantee
    /// is lost, so the call is fatal.
    WaitForFence,
    /// The requested region does not lie inside the target image.
    OutOfBounds,
}

/// Failures while writing CPU-side bytes into a mapped memory range.
#[derive(Clone, Copy, Debug, PartialEq, Eq, Structural)]
pub enum MemoryWritingError {
    /// Mapping the range for writing failed.
    AcquireMappingWriter,
    /// Unmapping the range failed.
    ReleaseMappingWriter,
    /// The write would run past the end of the mapped range.
    OutOfBounds,
}

} // verus!
