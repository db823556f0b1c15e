//! The staging upload pipeline's computations.
//!
//! An upload ferries tightly packed RGBA pixel rows (4 bytes per texel)
//! through a CPU-visible staging buffer into a device-local image. The
//! device demands that consecutive rows in the staging buffer start at a
//! pitch that is a multiple of its copy-pitch alignment, a power of two.
//! This module computes that pitch, lays the rows out with padding, and
//! states the exact one-shot command sequence (barrier, copy, barrier,
//! fence-synchronized submit, cleanup) that the upload records.

use vstd::prelude::*;

verus! {

/// An alignment mask is one less than a power of two.
pub open spec fn is_alignment_mask(mask: u32) -> bool {
    &&& mask < u32::MAX
    &&& mask & ((mask + 1) as u32) == 0
}

/// `row_size` rounded up to the next multiple of `mask + 1`.
pub open spec fn spec_row_pitch(row_size: u32, mask: u32) -> u32 {
    ((row_size + mask) as u32) & !mask
}

/// Rounds a tightly packed row size up to the device's copy-pitch
/// alignment. The result is the least multiple of `alignment_mask + 1`
/// that is at least `row_size`.
pub fn row_pitch(row_size: u32, alignment_mask: u32) -> (r: u32)
    requires
        is_alignment_mask(alignment_mask),
        row_size + alignment_mask <= u32::MAX,
    ensures
        r == spec_row_pitch(row_size, alignment_mask),
        r >= row_size,
        r as int % (alignment_mask + 1) == 0,
        r <= row_size + alignment_mask,
        row_size % 4 == 0 ==> r % 4 == 0,
{
    let r = (row_size + alignment_mask) & !alignment_mask;
    proof {
        lemma_row_pitch_bounds(row_size, alignment_mask);
    }
    r
}

/// Rounding up to `mask + 1` with a power-of-two mask stays within one
/// alignment of the row size and lands on a multiple of the alignment.
pub proof fn lemma_row_pitch_bounds(row_size: u32, mask: u32)
    requires
        is_alignment_mask(mask),
        row_size + mask <= u32::MAX,
    ensures
        spec_row_pitch(row_size, mask) >= row_size,
        spec_row_pitch(row_size, mask) as int % (mask + 1) == 0,
        spec_row_pitch(row_size, mask) <= row_size + mask,
        row_size % 4 == 0 ==> spec_row_pitch(row_size, mask) % 4 == 0,
{
    assert(((row_size + mask) as u32) & !mask >= row_size
        && (((row_size + mask) as u32) & !mask) % ((mask + 1) as u32) == 0
        && ((row_size + mask) as u32) & !mask <= row_size + mask
        && (row_size % 4 == 0 ==> (((row_size + mask) as u32) & !mask) % 4 == 0)) by (bit_vector)
        requires
            mask < u32::MAX,
            mask & ((mask + 1) as u32) == 0,
            row_size + mask <= u32::MAX,
    ;
    assert((mask + 1) as u32 == mask + 1);
    assert(spec_row_pitch(row_size, mask) as int % (mask + 1) as int
        == (spec_row_pitch(row_size, mask) % ((mask + 1) as u32)) as int);
}

/// Byte `i` of row `y` of a pitch-aligned staging layout.
pub open spec fn staged_byte(staging: Seq<u8>, pitch: int, y: int, i: int) -> u8 {
    staging[y * pitch + i]
}

/// Byte `b` of the texel at `(x, y)` of a tightly packed image whose rows
/// are `width` texels.
pub open spec fn texel_byte(pixels: Seq<u8>, width: int, x: int, y: int, b: int) -> u8 {
    pixels[(y * width + x) * 4 + b]
}

/// The flat position of a texel byte lies inside the image's byte range.
pub proof fn lemma_texel_index_bound(w: int, h: int, x: int, y: int, b: int)
    by (nonlinear_arith)
    requires
        0 <= x < w,
        0 <= y < h,
        0 <= b < 4,
    ensures
        0 <= y * w + x < w * h,
        0 <= (y * w + x) * 4 + b < 4 * w * h,
{
}

/// Distinct texel-byte coordinates have distinct flat positions.
pub proof fn lemma_texel_index_inj(w: int, x1: int, y1: int, b1: int, x2: int, y2: int, b2: int)
    requires
        0 <= x1 < w,
        0 <= y1,
        0 <= b1 < 4,
        0 <= x2 < w,
        0 <= y2,
        0 <= b2 < 4,
        !(x1 == x2 && y1 == y2 && b1 == b2),
    ensures
        (y1 * w + x1) * 4 + b1 != (y2 * w + x2) * 4 + b2,
{
    if y1 == y2 {
        assert((y1 * w + x1) * 4 + b1 != (y2 * w + x2) * 4 + b2) by (nonlinear_arith)
            requires
                y1 == y2,
                0 <= x1,
                0 <= x2,
                0 <= b1 < 4,
                0 <= b2 < 4,
                !(x1 == x2 && b1 == b2),
        ;
    } else if y1 < y2 {
        assert((y1 * w + x1) * 4 + b1 < (y2 * w + x2) * 4 + b2) by (nonlinear_arith)
            requires
                y1 < y2,
                0 <= x1 < w,
                0 <= x2,
                0 <= b1 < 4,
                0 <= b2,
        ;
    } else {
        assert((y2 * w + x2) * 4 + b2 < (y1 * w + x1) * 4 + b1) by (nonlinear_arith)
            requires
                y2 < y1,
                0 <= x2 < w,
                0 <= x1,
                0 <= b2 < 4,
                0 <= b1,
        ;
    }
}

/// Reads byte `b` of the texel at `(x, y)` of a tightly packed image.
pub fn read_texel_byte(pixels: &Vec<u8>, width: u32, height: u32, x: u32, y: u32, b: u32) -> (v: u8)
    requires
        pixels@.len() == 4 * width * height,
        x < width,
        y < height,
        b < 4,
    ensures
        v == texel_byte(pixels@, width as int, x as int, y as int, b as int),
{
    proof {
        lemma_texel_index_bound(width as int, height as int, x as int, y as int, b as int);
        assert(pixels@.len() == pixels.len());
        assert(4 * (width as int) * (height as int) == 4 * ((width as int) * (height as int)))
            by (nonlinear_arith);
    }
    let idx: usize = ((y as usize) * (width as usize) + (x as usize)) * 4 + (b as usize);
    pixels[idx]
}

/// Copies tightly packed pixel rows into a fresh staging layout: row `y`
/// starts at byte `y * pitch`, carries the `4 * width` row bytes, and the
/// padding up to the pitch is zero.
pub fn fill_staging(pixels: &Vec<u8>, width: u32, height: u32, pitch: u32) -> (out: Vec<u8>)
    requires
        pixels@.len() == 4 * width * height,
        4 * width <= pitch,
    ensures
        out@.len() == pitch * height,
        forall|y: int, i: int|
            0 <= y < height && 0 <= i < 4 * width
                ==> #[trigger] staged_byte(out@, pitch as int, y, i) == pixels@[y * (4 * width) + i],
        forall|y: int, i: int|
            0 <= y < height && 4 * width <= i < pitch
                ==> #[trigger] staged_byte(out@, pitch as int, y, i) == 0u8,
{
    let row_size: usize = 4 * (width as usize);
    let pixels_len: usize = pixels.len();
    proof {
        assert(pixels@.len() == pixels_len);
    }
    let mut out: Vec<u8> = Vec::new();
    let mut src_base: usize = 0;
    let mut y: usize = 0;
    while y < height as usize
        invariant
            0 <= y <= height,
            pixels@.len() == 4 * width * height,
            pixels@.len() <= usize::MAX,
            row_size == 4 * width,
            row_size <= pitch,
            src_base == y * row_size,
            out@.len() == y * pitch,
            forall|r: int, i: int|
                0 <= r < y && 0 <= i < 4 * width
                    ==> #[trigger] staged_byte(out@, pitch as int, r, i) == pixels@[r * (4 * width) + i],
            forall|r: int, i: int|
                0 <= r < y && 4 * width <= i < pitch
                    ==> #[trigger] staged_byte(out@, pitch as int, r, i) == 0u8,
        decreases height - y,
    {
        proof {
            assert((y + 1) * row_size <= height * row_size && (y + 1) * (pitch as int) <= height * (pitch as int)
                && height * row_size == 4 * width * height
                && (y + 1) * row_size == y * row_size + row_size) by (nonlinear_arith)
                requires
                    0 <= y < height,
                    row_size == 4 * (width as int),
                    0 <= row_size <= pitch,
            ;
        }
        let mut i: usize = 0;
        while i < row_size
            invariant
                0 <= i <= row_size,
                0 <= y < height,
                pixels@.len() == 4 * width * height,
                pixels@.len() <= usize::MAX,
                row_size == 4 * width,
                src_base == y * row_size,
                src_base + row_size <= pixels@.len(),
                out@.len() == y * (pitch as int) + i,
                row_size <= pitch,
                forall|r: int, k: int|
                    0 <= r < y && 0 <= k < 4 * width
                        ==> #[trigger] staged_byte(out@, pitch as int, r, k) == pixels@[r * (4 * width) + k],
                forall|r: int, k: int|
                    0 <= r < y && 4 * width <= k < pitch
                        ==> #[trigger] staged_byte(out@, pitch as int, r, k) == 0u8,
                forall|k: int|
                    0 <= k < i
                        ==> #[trigger] staged_byte(out@, pitch as int, y as int, k) == pixels@[y * (4 * width) + k],
            decreases row_size - i,
        {
            let ghost pre = out@;
            let b = pixels[src_base + i];
            out.push(b);
            proof {
                lemma_prefix_rows_unchanged(pre, out@, pitch as int, y as int);
            }
            i = i + 1;
        }
        let mut p: usize = row_size;
        while p < pitch as usize
            invariant
                row_size <= p <= pitch,
                0 <= y < height,
                pixels@.len() == 4 * width * height,
                row_size == 4 * width,
                src_base == y * row_size,
                out@.len() == y * (pitch as int) + p,
                forall|r: int, k: int|
                    0 <= r < y && 0 <= k < 4 * width
                        ==> #[trigger] staged_byte(out@, pitch as int, r, k) == pixels@[r * (4 * width) + k],
                forall|r: int, k: int|
                    0 <= r < y && 4 * width <= k < pitch
                        ==> #[trigger] staged_byte(out@, pitch as int, r, k) == 0u8,
                forall|k: int|
                    0 <= k < 4 * width
                        ==> #[trigger] staged_byte(out@, pitch as int, y as int, k) == pixels@[y * (4 * width) + k],
                forall|k: int|
                    4 * width <= k < p
                        ==> #[trigger] staged_byte(out@, pitch as int, y as int, k) == 0u8,
            decreases pitch - p,
        {
            let ghost pre = out@;
            out.push(0u8);
            proof {
                lemma_prefix_rows_unchanged(pre, out@, pitch as int, y as int);
            }
            p = p + 1;
        }
        proof {
            assert((y + 1) * (pitch as int) == y * (pitch as int) + pitch) by (nonlinear_arith);
            assert((y + 1) * row_size == y * row_size + row_size) by (nonlinear_arith);
        }
        src_base = src_base + row_size;
        y = y + 1;
    }
    proof {
        assert(out@.len() == height * (pitch as int));
        assert(height * (pitch as int) == (pitch as int) * height) by (nonlinear_arith);
    }
    out
}

/// Rows that lie wholly inside a sequence keep their bytes when the
/// sequence only grows: byte `k` of row `r` sits at `r * pitch + k`, which
/// is below `y * pitch` for every row `r` before `y`.
proof fn lemma_prefix_rows_unchanged(pre: Seq<u8>, post: Seq<u8>, pitch: int, y: int)
    requires
        0 <= pitch,
        0 <= y,
        y * pitch <= pre.len(),
        pre.len() <= post.len(),
        forall|j: int| 0 <= j < pre.len() ==> post[j] == pre[j],
    ensures
        forall|r: int, k: int|
            0 <= r < y && 0 <= k < pitch
                ==> #[trigger] staged_byte(post, pitch, r, k) == staged_byte(pre, pitch, r, k),
        forall|k: int|
            0 <= k && y * pitch + k < pre.len()
                ==> #[trigger] staged_byte(post, pitch, y, k) == staged_byte(pre, pitch, y, k),
{
    assert forall|r: int, k: int|
        0 <= r < y && 0 <= k < pitch
            implies #[trigger] staged_byte(post, pitch, r, k) == staged_byte(pre, pitch, r, k) by {
        assert(0 <= r * pitch + k < y * pitch) by (nonlinear_arith)
            requires
                0 <= r < y,
                0 <= k < pitch,
        ;
    }
    assert(0 <= y * pitch) by (nonlinear_arith)
        requires
            0 <= y,
            0 <= pitch,
    ;
}

/// The layouts an uploaded image moves through.
#[derive(Clone, Copy, Debug, PartialEq, Eq, Structural)]
pub enum ImageLayout {
    Undefined,
    TransferDstOptimal,
    ShaderReadOnlyOptimal,
}

/// The access scopes named by the upload's barriers.
#[derive(Clone, Copy, Debug, PartialEq, Eq, Structural)]
pub enum AccessScope {
    NoAccess,
    TransferWrite,
    ShaderRead,
}

/// The pipeline stages named by the upload's barriers.
#[derive(Clone, Copy, Debug, PartialEq, Eq, Structural)]
pub enum StageScope {
    TopOfPipe,
    Transfer,
    FragmentShader,
}

/// A layout transition of the whole image (color aspect, mip 0, layer 0),
/// with its access and stage scopes.
#[derive(Clone, Copy, Debug, PartialEq, Eq, Structural)]
pub struct BarrierDesc {
    pub from_access: AccessScope,
    pub from_layout: ImageLayout,
    pub to_access: AccessScope,
    pub to_layout: ImageLayout,
    pub from_stage: StageScope,
    pub to_stage: StageScope,
}

/// One buffer-to-image copy: the staging buffer from byte 0, rows of
/// `buffer_width` texels, into mip 0 / layer 0 of the image at the given
/// offset, over the given extent (depth 1).
#[derive(Clone, Copy, Debug, PartialEq, Eq, Structural)]
pub struct CopyDesc {
    pub buffer_offset: u64,
    pub buffer_width: u32,
    pub buffer_height: u32,
    pub offset_x: u32,
    pub offset_y: u32,
    pub extent_width: u32,
    pub extent_height: u32,
    pub extent_depth: u32,
}

/// One step of the synchronous upload protocol, in the order the caller
/// must perform them against the device.
///
/// The wait is a true blocking wait with no timeout: every upload is
/// synchronous and self-contained, and the image is shader-readable the
/// instant the sequence completes. That trades throughput for simplicity;
/// an asynchronous or batched variant would split this sequence at the
/// wait, and a caller needing cancellation must wrap the wait with its own
/// timeout policy.
#[derive(Clone, Copy, Debug, PartialEq, Eq, Structural)]
pub enum UploadStep {
    Barrier(BarrierDesc),
    CopyBufferToImage(CopyDesc),
    CreateFence,
    SubmitWithFence,
    WaitForFence,
    DestroyFence,
    FreeCommandBuffer,
    DestroyStagingBuffer,
    FreeStagingMemory,
}

/// The barrier that readies an undefined image for transfer writes.
pub open spec fn entry_barrier() -> BarrierDesc {
    BarrierDesc {
        from_access: AccessScope::NoAccess,
        from_layout: ImageLayout::Undefined,
        to_access: AccessScope::TransferWrite,
        to_layout: ImageLayout::TransferDstOptimal,
        from_stage: StageScope::TopOfPipe,
        to_stage: StageScope::Transfer,
    }
}

/// The barrier that hands the written image to the fragment shader.
pub open spec fn exit_barrier() -> BarrierDesc {
    BarrierDesc {
        from_access: AccessScope::TransferWrite,
        from_layout: ImageLayout::TransferDstOptimal,
        to_access: AccessScope::ShaderRead,
        to_layout: ImageLayout::ShaderReadOnlyOptimal,
        from_stage: StageScope::Transfer,
        to_stage: StageScope::FragmentShader,
    }
}

/// The one-shot transfer sequence of an upload: transition in, copy,
/// transition out, then fence-synchronized submit, the blocking wait, and
/// the unconditional cleanup of fence, command buffer and staging buffer.
pub open spec fn spec_upload_steps(
    buffer_width: u32,
    width: u32,
    height: u32,
    offset_x: u32,
    offset_y: u32,
) -> Seq<UploadStep> {
    seq![
        UploadStep::Barrier(entry_barrier()),
        UploadStep::CopyBufferToImage(CopyDesc {
            buffer_offset: 0,
            buffer_width,
            buffer_height: height,
            offset_x,
            offset_y,
            extent_width: width,
            extent_height: height,
            extent_depth: 1,
        }),
        UploadStep::Barrier(exit_barrier()),
        UploadStep::CreateFence,
        UploadStep::SubmitWithFence,
        UploadStep::WaitForFence,
        UploadStep::DestroyFence,
        UploadStep::FreeCommandBuffer,
        UploadStep::DestroyStagingBuffer,
        UploadStep::FreeStagingMemory,
    ]
}

/// Every upload follows the same protocol: the entry barrier strictly
/// before the copy, the copy strictly before the exit barrier, the
/// fence-synchronized submit after recording, the blocking wait after the
/// submit, and the cleanup of fence, command buffer and staging buffer
/// strictly after the wait, so nothing is destroyed while the device may
/// still read it.
pub proof fn lemma_upload_protocol_order(
    buffer_width: u32,
    width: u32,
    height: u32,
    offset_x: u32,
    offset_y: u32,
)
    ensures
        ({
            let steps = spec_upload_steps(buffer_width, width, height, offset_x, offset_y);
            &&& steps.len() == 10
            &&& steps[0] == UploadStep::Barrier(entry_barrier())
            &&& steps[1] == UploadStep::CopyBufferToImage(CopyDesc {
                buffer_offset: 0,
                buffer_width,
                buffer_height: height,
                offset_x,
                offset_y,
                extent_width: width,
                extent_height: height,
                extent_depth: 1,
            })
            &&& steps[2] == UploadStep::Barrier(exit_barrier())
            &&& steps[3] == UploadStep::CreateFence
            &&& steps[4] == UploadStep::SubmitWithFence
            &&& steps[5] == UploadStep::WaitForFence
            &&& steps[6] == UploadStep::DestroyFence
            &&& steps[7] == UploadStep::FreeCommandBuffer
            &&& steps[8] == UploadStep::DestroyStagingBuffer
            &&& steps[9] == UploadStep::FreeStagingMemory
        }),
{
}

/// Records the command sequence that copies a staged upload into an image:
/// exactly the barrier-copy-barrier transfer, synchronized by a fresh
/// fence, followed by the cleanup steps. `buffer_width` is the staging row
/// pitch in texels; the copy lands at `(offset_x, offset_y)` with extent
/// `width` by `height`.
pub fn upload_steps(
    buffer_width: u32,
    width: u32,
    height: u32,
    offset_x: u32,
    offset_y: u32,
) -> (steps: Vec<UploadStep>)
    ensures
        steps@ == spec_upload_steps(buffer_width, width, height, offset_x, offset_y),
{
    let mut steps: Vec<UploadStep> = Vec::new();
    steps.push(UploadStep::Barrier(BarrierDesc {
        from_access: AccessScope::NoAccess,
        from_layout: ImageLayout::Undefined,
        to_access: AccessScope::TransferWrite,
        to_layout: ImageLayout::TransferDstOptimal,
        from_stage: StageScope::TopOfPipe,
        to_stage: StageScope::Transfer,
    }));
    steps.push(UploadStep::CopyBufferToImage(CopyDesc {
        buffer_offset: 0,
        buffer_width,
        buffer_height: height,
        offset_x,
        offset_y,
        extent_width: width,
        extent_height: height,
        extent_depth: 1,
    }));
    steps.push(UploadStep::Barrier(BarrierDesc {
        from_access: AccessScope::TransferWrite,
        from_layout: ImageLayout::TransferDstOptimal,
        to_access: AccessScope::ShaderRead,
        to_layout: ImageLayout::ShaderReadOnlyOptimal,
        from_stage: StageScope::Transfer,
        to_stage: StageScope::FragmentShader,
    }));
    steps.push(UploadStep::CreateFence);
    steps.push(UploadStep::SubmitWithFence);
    steps.push(UploadStep::WaitForFence);
    steps.push(UploadStep::DestroyFence);
    steps.push(UploadStep::FreeCommandBuffer);
    steps.push(UploadStep::DestroyStagingBuffer);
    steps.push(UploadStep::FreeStagingMemory);
    proof {
        assert(steps@ =~= spec_upload_steps(buffer_width, width, height, offset_x, offset_y));
    }
    steps
}

} // verus!
