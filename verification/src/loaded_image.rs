//! The image resource.
//!
//! A loaded image owns a 2D device image of the fixed 4-channel, 8-bit,
//! sRGB format (single mip level, single array layer), the memory bound to
//! it, an image view, a sampler, and a descriptor set whose two bindings
//! are written exactly once, at construction. Pixel data reaches the image
//! only through the staging upload pipeline; the bytes the image holds are
//! modeled here texel by texel, so a partial update provably changes the
//! addressed region and nothing else.

use vstd::prelude::*;

use crate::buffer_bundle::{TeardownStep, USAGE_TRANSFER_SRC};
use crate::errors::{BufferError, LoadedImageError};
use crate::memory::{select_memory_type, selector_result, DEVICE_LOCAL};
use crate::staging::{
    fill_staging, is_alignment_mask, lemma_texel_index_bound, lemma_texel_index_inj, row_pitch,
    spec_row_pitch, spec_upload_steps, staged_byte, texel_byte, upload_steps, ImageLayout,
    UploadStep,
};
use vstd::pervasive::VecAdditionalExecFns;

verus! {

/// Image usage bit for a transfer destination.
pub const IMAGE_USAGE_TRANSFER_DST: u32 = 0x2;
/// Image usage bit for a sampled texture.
pub const IMAGE_USAGE_SAMPLED: u32 = 0x4;

/// The sampling filter, used for both minification and magnification.
#[derive(Clone, Copy, Debug, PartialEq, Eq, Structural)]
pub enum Filter {
    Nearest,
    Linear,
}

/// The fixed texel format of every loaded image.
#[derive(Clone, Copy, Debug, PartialEq, Eq, Structural)]
pub enum TexelFormat {
    Rgba8Srgb,
}

/// How the device arranges the image in memory.
#[derive(Clone, Copy, Debug, PartialEq, Eq, Structural)]
pub enum Tiling {
    Optimal,
}

/// How a sampler treats coordinates outside the image.
#[derive(Clone, Copy, Debug, PartialEq, Eq, Structural)]
pub enum WrapMode {
    Clamp,
}

/// What the device is asked to create for the image object.
#[derive(Clone, Copy, Debug, PartialEq, Eq, Structural)]
pub struct ImageDesc {
    pub width: u32,
    pub height: u32,
    pub layers: u16,
    pub samples: u8,
    pub mip_levels: u8,
    pub format: TexelFormat,
    pub tiling: Tiling,
    pub usage: u32,
}

/// What the device is asked to create for the image view: 2D, matching
/// format, identity channel mapping, color aspect, mip 0, layer 0.
#[derive(Clone, Copy, Debug, PartialEq, Eq, Structural)]
pub struct ViewDesc {
    pub format: TexelFormat,
    pub identity_swizzle: bool,
    pub color_aspect: bool,
    pub mip_start: u8,
    pub mip_count: u8,
    pub layer_start: u16,
    pub layer_count: u16,
}

/// What the device is asked to create for the sampler.
#[derive(Clone, Copy, Debug, PartialEq, Eq, Structural)]
pub struct SamplerDesc {
    pub min_filter: Filter,
    pub mag_filter: Filter,
    pub wrap: WrapMode,
}

/// What one descriptor binding is pointed at.
#[derive(Clone, Copy, Debug, PartialEq, Eq, Structural)]
pub enum DescriptorRef {
    /// The image view, declared in the shader-read-only layout.
    ImageViewSampled { view: u64, layout: ImageLayout },
    /// The sampler.
    SamplerHandle { sampler: u64 },
}

/// One write into a descriptor set.
#[derive(Clone, Copy, Debug, PartialEq, Eq, Structural)]
pub struct DescriptorWrite {
    pub set: u64,
    pub binding: u32,
    pub array_offset: u32,
    pub descriptor: DescriptorRef,
}

/// The image-object description of §creation: 2D with the given extent,
/// one layer, one sample, one mip level, sRGB RGBA, optimal tiling, usable
/// as a transfer destination and for sampling.
pub fn image_desc(width: u32, height: u32) -> (d: ImageDesc)
    ensures
        d == (ImageDesc {
            width,
            height,
            layers: 1u16,
            samples: 1u8,
            mip_levels: 1u8,
            format: TexelFormat::Rgba8Srgb,
            tiling: Tiling::Optimal,
            usage: IMAGE_USAGE_TRANSFER_DST | IMAGE_USAGE_SAMPLED,
        }),
{
    ImageDesc {
        width,
        height,
        layers: 1,
        samples: 1,
        mip_levels: 1,
        format: TexelFormat::Rgba8Srgb,
        tiling: Tiling::Optimal,
        usage: IMAGE_USAGE_TRANSFER_DST | IMAGE_USAGE_SAMPLED,
    }
}

/// The image-view description: matching format, identity channel mapping,
/// color aspect only, mip 0 only, layer 0 only.
pub fn view_desc() -> (d: ViewDesc)
    ensures
        d == (ViewDesc {
            format: TexelFormat::Rgba8Srgb,
            identity_swizzle: true,
            color_aspect: true,
            mip_start: 0u8,
            mip_count: 1u8,
            layer_start: 0u16,
            layer_count: 1u16,
        }),
{
    ViewDesc {
        format: TexelFormat::Rgba8Srgb,
        identity_swizzle: true,
        color_aspect: true,
        mip_start: 0,
        mip_count: 1,
        layer_start: 0,
        layer_count: 1,
    }
}

/// The sampler description: the caller's filter for both minification and
/// magnification, clamp-to-edge addressing.
pub fn sampler_desc(filter: Filter) -> (d: SamplerDesc)
    ensures
        d == (SamplerDesc { min_filter: filter, mag_filter: filter, wrap: WrapMode::Clamp }),
{
    SamplerDesc { min_filter: filter, mag_filter: filter, wrap: WrapMode::Clamp }
}

/// The two descriptor writes of a texture: binding 0 is the image view in
/// the shader-read-only layout, binding 1 is the sampler.
pub open spec fn spec_descriptor_writes(set: u64, view: u64, sampler: u64) -> Seq<DescriptorWrite> {
    seq![
        DescriptorWrite {
            set,
            binding: 0,
            array_offset: 0,
            descriptor: DescriptorRef::ImageViewSampled {
                view,
                layout: ImageLayout::ShaderReadOnlyOptimal,
            },
        },
        DescriptorWrite {
            set,
            binding: 1,
            array_offset: 0,
            descriptor: DescriptorRef::SamplerHandle { sampler },
        },
    ]
}

/// Builds the descriptor writes that populate a texture's descriptor set,
/// performed exactly once per resource, immediately after creation.
pub fn descriptor_writes(set: u64, view: u64, sampler: u64) -> (w: Vec<DescriptorWrite>)
    ensures
        w@ == spec_descriptor_writes(set, view, sampler),
{
    let mut w: Vec<DescriptorWrite> = Vec::new();
    w.push(DescriptorWrite {
        set,
        binding: 0,
        array_offset: 0,
        descriptor: DescriptorRef::ImageViewSampled {
            view,
            layout: ImageLayout::ShaderReadOnlyOptimal,
        },
    });
    w.push(DescriptorWrite {
        set,
        binding: 1,
        array_offset: 0,
        descriptor: DescriptorRef::SamplerHandle { sampler },
    });
    proof {
        assert(w@ =~= spec_descriptor_writes(set, view, sampler));
    }
    w
}

/// Writes byte `b` of the texel at `(x, y)` and touches nothing else.
fn set_texel_byte(t: &mut Vec<u8>, width: u32, height: u32, x: u32, y: u32, b: u32, v: u8)
    requires
        old(t)@.len() == 4 * width * height,
        x < width,
        y < height,
        b < 4,
    ensures
        final(t)@.len() == old(t)@.len(),
        texel_byte(final(t)@, width as int, x as int, y as int, b as int) == v,
        forall|xx: int, yy: int, bb: int|
            0 <= xx < width && 0 <= yy < height && 0 <= bb < 4
                && !(xx == x && yy == y && bb == b)
                ==> #[trigger] texel_byte(final(t)@, width as int, xx, yy, bb)
                    == texel_byte(old(t)@, width as int, xx, yy, bb),
{
    proof {
        lemma_texel_index_bound(width as int, height as int, x as int, y as int, b as int);
        assert(old(t)@.len() == t.len());
        assert(4 * (width as int) * (height as int) == 4 * ((width as int) * (height as int)))
            by (nonlinear_arith);
    }
    let idx: usize = ((y as usize) * (width as usize) + (x as usize)) * 4 + (b as usize);
    t.set(idx, v);
    proof {
        assert forall|xx: int, yy: int, bb: int|
            0 <= xx < width && 0 <= yy < height && 0 <= bb < 4
                && !(xx == x && yy == y && bb == b)
                implies #[trigger] texel_byte(t@, width as int, xx, yy, bb)
                    == texel_byte(old(t)@, width as int, xx, yy, bb) by {
            lemma_texel_index_inj(width as int, xx, yy, bb, x as int, y as int, b as int);
            lemma_texel_index_bound(width as int, height as int, xx, yy, bb);
        }
    }
}

/// A texel at `(xx, yy)` has been written by the blit when it lies in the
/// patch columns and either in a fully copied row or, in the row being
/// copied, in an already copied column.
spec fn blit_done(
    xx: int,
    yy: int,
    ox: int,
    oy: int,
    patch_w: int,
    rows_done: int,
    cols_done: int,
) -> bool {
    &&& ox <= xx < ox + patch_w
    &&& oy <= yy
    &&& (yy < oy + rows_done || (yy == oy + rows_done && xx < ox + cols_done))
}

/// Copies a `patch_w` by `patch_h` patch of tightly packed pixels into the
/// image bytes at `(ox, oy)`: every texel byte of the addressed region
/// takes the patch's value and every texel byte outside it is untouched.
fn blit_region(
    t: &mut Vec<u8>,
    width: u32,
    height: u32,
    ox: u32,
    oy: u32,
    data: &Vec<u8>,
    patch_w: u32,
    patch_h: u32,
)
    requires
        old(t)@.len() == 4 * width * height,
        data@.len() == 4 * patch_w * patch_h,
        ox + patch_w <= width,
        oy + patch_h <= height,
    ensures
        final(t)@.len() == old(t)@.len(),
        forall|xx: int, yy: int, bb: int|
            ox <= xx < ox + patch_w && oy <= yy < oy + patch_h && 0 <= bb < 4
                ==> #[trigger] texel_byte(final(t)@, width as int, xx, yy, bb)
                    == texel_byte(data@, patch_w as int, xx - ox, yy - oy, bb),
        forall|xx: int, yy: int, bb: int|
            0 <= xx < width && 0 <= yy < height && 0 <= bb < 4
                && !(ox <= xx < ox + patch_w && oy <= yy < oy + patch_h)
                ==> #[trigger] texel_byte(final(t)@, width as int, xx, yy, bb)
                    == texel_byte(old(t)@, width as int, xx, yy, bb),
{
    let mut y: u32 = 0;
    while y < patch_h
        invariant
            0 <= y <= patch_h,
            t@.len() == old(t)@.len(),
            old(t)@.len() == 4 * width * height,
            data@.len() == 4 * patch_w * patch_h,
            ox + patch_w <= width,
            oy + patch_h <= height,
            forall|xx: int, yy: int, bb: int|
                blit_done(xx, yy, ox as int, oy as int, patch_w as int, y as int, 0) && 0 <= bb < 4
                    ==> #[trigger] texel_byte(t@, width as int, xx, yy, bb)
                        == texel_byte(data@, patch_w as int, xx - ox, yy - oy, bb),
            forall|xx: int, yy: int, bb: int|
                0 <= xx < width && 0 <= yy < height && 0 <= bb < 4
                    && !blit_done(xx, yy, ox as int, oy as int, patch_w as int, y as int, 0)
                    ==> #[trigger] texel_byte(t@, width as int, xx, yy, bb)
                        == texel_byte(old(t)@, width as int, xx, yy, bb),
        decreases patch_h - y,
    {
        let mut x: u32 = 0;
        while x < patch_w
            invariant
                0 <= y < patch_h,
                0 <= x <= patch_w,
                t@.len() == old(t)@.len(),
                old(t)@.len() == 4 * width * height,
                data@.len() == 4 * patch_w * patch_h,
                ox + patch_w <= width,
                oy + patch_h <= height,
                forall|xx: int, yy: int, bb: int|
                    blit_done(xx, yy, ox as int, oy as int, patch_w as int, y as int, x as int)
                        && 0 <= bb < 4
                        ==> #[trigger] texel_byte(t@, width as int, xx, yy, bb)
                            == texel_byte(data@, patch_w as int, xx - ox, yy - oy, bb),
                forall|xx: int, yy: int, bb: int|
                    0 <= xx < width && 0 <= yy < height && 0 <= bb < 4
                        && !blit_done(xx, yy, ox as int, oy as int, patch_w as int, y as int, x as int)
                        ==> #[trigger] texel_byte(t@, width as int, xx, yy, bb)
                            == texel_byte(old(t)@, width as int, xx, yy, bb),
            decreases patch_w - x,
        {
            let v0 = crate::staging::read_texel_byte(data, patch_w, patch_h, x, y, 0);
            let v1 = crate::staging::read_texel_byte(data, patch_w, patch_h, x, y, 1);
            let v2 = crate::staging::read_texel_byte(data, patch_w, patch_h, x, y, 2);
            let v3 = crate::staging::read_texel_byte(data, patch_w, patch_h, x, y, 3);
            set_texel_byte(t, width, height, ox + x, oy + y, 0, v0);
            set_texel_byte(t, width, height, ox + x, oy + y, 1, v1);
            set_texel_byte(t, width, height, ox + x, oy + y, 2, v2);
            set_texel_byte(t, width, height, ox + x, oy + y, 3, v3);
            x = x + 1;
        }
        y = y + 1;
    }
}

/// Everything one synchronous upload needs from the caller: the staging
/// buffer to create (its size, usage and exact byte contents) and the
/// device steps to perform in order.
pub struct UploadPlan {
    /// Bytes of the CPU-visible staging buffer: pixel rows padded to the
    /// device's copy-pitch alignment, padding zeroed.
    pub staging_bytes: Vec<u8>,
    /// Size in bytes of the staging buffer, `row_pitch * height`.
    pub staging_size: u64,
    /// Usage the staging buffer is created with: a transfer source.
    pub staging_usage: u32,
    /// The staging row pitch in texels, handed to the copy command.
    pub buffer_width: u32,
    /// The device steps of the upload, in order.
    pub steps: Vec<UploadStep>,
}

/// A shader-readable texture: the image handle, its memory, its view, its
/// sampler, its populated descriptor set, and the modeled texel bytes the
/// device-side image holds.
pub struct LoadedImage {
    /// The device image handle.
    pub image: u64,
    /// The size the device reported for the image's memory requirement.
    pub requirements_size: u64,
    /// The image view handle.
    pub image_view: u64,
    /// The sampler handle.
    pub sampler: u64,
    /// The descriptor set handle.
    pub descriptor_set: u64,
    /// Extent in texels.
    pub width: u32,
    /// Extent in texels.
    pub height: u32,
    /// The texel bytes the image holds: 4 bytes per texel, row-major.
    pub texels: Vec<u8>,
}

/// The outcome of creating an image resource: the resource itself, the
/// device-local memory type its allocation must use, the initial upload to
/// perform, and the descriptor writes that populate its descriptor set.
pub struct CreatedImage {
    pub resource: LoadedImage,
    /// The lowest-indexed device-local memory type compatible with the
    /// image's requirements.
    pub memory_type_id: usize,
    /// The initial synchronous upload of the caller's pixel data, at
    /// offset (0, 0).
    pub upload: UploadPlan,
    /// The two bindings written once, at construction: the view at
    /// binding 0, the sampler at binding 1.
    pub descriptor_writes: Vec<DescriptorWrite>,
}

impl LoadedImage {
    /// The modeled bytes cover exactly the image's extent.
    pub open spec fn wf(self) -> bool {
        self.texels@.len() == 4 * self.width * self.height
    }

    /// Materializes an uploaded, shader-readable texture: selects the
    /// device-local memory type for the image's reported requirements,
    /// assembles the resource around the handles the device returned,
    /// stages the initial pixel upload for the full extent, and lays out
    /// the two descriptor writes. Fails only when no device-local memory
    /// type matches `type_mask`; the caller owns whatever handles it
    /// created before that and must release them.
    pub fn allocate_and_create(
        memory_types: &Vec<u32>,
        type_mask: u64,
        requirements_size: u64,
        alignment_mask: u32,
        img: &Vec<u8>,
        width: u32,
        height: u32,
        image: u64,
        image_view: u64,
        sampler: u64,
        descriptor_set: u64,
    ) -> (r: Result<CreatedImage, BufferError>)
        requires
            memory_types@.len() <= 64,
            img@.len() == 4 * width * height,
            is_alignment_mask(alignment_mask),
            4 * width + alignment_mask <= u32::MAX,
        ensures
            match r {
                Ok(c) => ({
                    let pitch = spec_row_pitch((4 * width) as u32, alignment_mask) as int;
                    &&& selector_result(memory_types@, type_mask, DEVICE_LOCAL, Some(c.memory_type_id))
                    &&& c.resource.wf()
                    &&& c.resource.image == image
                    &&& c.resource.requirements_size == requirements_size
                    &&& c.resource.image_view == image_view
                    &&& c.resource.sampler == sampler
                    &&& c.resource.descriptor_set == descriptor_set
                    &&& c.resource.width == width
                    &&& c.resource.height == height
                    &&& forall|xx: int, yy: int, bb: int|
                        0 <= xx < width && 0 <= yy < height && 0 <= bb < 4
                            ==> #[trigger] texel_byte(c.resource.texels@, width as int, xx, yy, bb)
                                == texel_byte(img@, width as int, xx, yy, bb)
                    &&& c.upload.staging_bytes@.len() == pitch * height
                    &&& forall|y: int, i: int|
                        0 <= y < height && 0 <= i < 4 * width
                            ==> #[trigger] staged_byte(c.upload.staging_bytes@, pitch, y, i)
                                == img@[y * (4 * width) + i]
                    &&& forall|y: int, i: int|
                        0 <= y < height && 4 * width <= i < pitch
                            ==> #[trigger] staged_byte(c.upload.staging_bytes@, pitch, y, i) == 0u8
                    &&& c.upload.staging_size == pitch * height
                    &&& c.upload.staging_usage == USAGE_TRANSFER_SRC
                    &&& 4 * c.upload.buffer_width == pitch
                    &&& c.upload.steps@ == spec_upload_steps(c.upload.buffer_width, width, height, 0, 0)
                    &&& c.descriptor_writes@ == spec_descriptor_writes(descriptor_set, image_view, sampler)
                }),
                Err(e) => {
                    &&& e == BufferError::MemoryId
                    &&& selector_result(memory_types@, type_mask, DEVICE_LOCAL, None::<usize>)
                },
            },
    {
        let memory_type_id = match select_memory_type(memory_types, type_mask, DEVICE_LOCAL) {
            Ok(i) => i,
            Err(e) => {
                return Err(e);
            },
        };
        let n = img.len();
        let mut texels: Vec<u8> = Vec::new();
        let mut i: usize = 0;
        while i < n
            invariant
                0 <= i <= n,
                texels@.len() == i,
            decreases n - i,
        {
            texels.push(0u8);
            i = i + 1;
        }
        let mut resource = LoadedImage {
            image,
            requirements_size,
            image_view,
            sampler,
            descriptor_set,
            width,
            height,
            texels,
        };
        let upload = match resource.edit_image(width, height, 0, 0, img, alignment_mask) {
            Ok(plan) => plan,
            Err(_) => vstd::pervasive::unreached(),
        };
        let writes = descriptor_writes(descriptor_set, image_view, sampler);
        Ok(CreatedImage { resource, memory_type_id, upload, descriptor_writes: writes })
    }

    /// Reads byte `b` of the texel at `(x, y)`.
    pub fn texel_byte_at(&self, x: u32, y: u32, b: u32) -> (v: u8)
        requires
            self.wf(),
            x < self.width,
            y < self.height,
            b < 4,
        ensures
            v == texel_byte(self.texels@, self.width as int, x as int, y as int, b as int),
    {
        crate::staging::read_texel_byte(&self.texels, self.width, self.height, x, y, b)
    }

    /// Computes the staging side of one upload: the row pitch for `width`
    /// texels, the pitch-padded staging bytes for `img`, the staging
    /// buffer's byte size, and the pitch in texels for the copy command.
    pub fn create_staging_buffer(img: &Vec<u8>, width: u32, height: u32, alignment_mask: u32) -> (r: (Vec<u8>, u64, u32))
        requires
            img@.len() == 4 * width * height,
            is_alignment_mask(alignment_mask),
            4 * width + alignment_mask <= u32::MAX,
        ensures
            ({
                let pitch = spec_row_pitch((4 * width) as u32, alignment_mask) as int;
                &&& r.0@.len() == pitch * height
                &&& forall|y: int, i: int|
                    0 <= y < height && 0 <= i < 4 * width
                        ==> #[trigger] staged_byte(r.0@, pitch, y, i) == img@[y * (4 * width) + i]
                &&& forall|y: int, i: int|
                    0 <= y < height && 4 * width <= i < pitch
                        ==> #[trigger] staged_byte(r.0@, pitch, y, i) == 0u8
                &&& r.1 == pitch * height
                &&& r.2 == pitch / 4
                &&& 4 * r.2 == pitch
            }),
    {
        let row_size: u32 = 4 * width;
        let pitch = row_pitch(row_size, alignment_mask);
        let bytes = fill_staging(img, width, height, pitch);
        proof {
            assert((pitch as int) * (height as int) <= u64::MAX) by (nonlinear_arith)
                requires
                    0 <= pitch <= u32::MAX,
                    0 <= height <= u32::MAX,
            ;
        }
        let staging_size: u64 = (pitch as u64) * (height as u64);
        let buffer_width: u32 = pitch / 4;
        (bytes, staging_size, buffer_width)
    }

    /// Re-runs the staging upload pipeline against the existing image: the
    /// patch must lie inside the image's extent, else the call fails with
    /// the out-of-bounds error and changes nothing. On success the modeled
    /// texels of the addressed region take the patch's bytes, every other
    /// texel is untouched, and the returned plan carries the staged bytes
    /// and the exact transfer sequence for the caller to perform.
    pub fn edit_image(
        &mut self,
        width: u32,
        height: u32,
        offset_x: u32,
        offset_y: u32,
        data: &Vec<u8>,
        alignment_mask: u32,
    ) -> (r: Result<UploadPlan, LoadedImageError>)
        requires
            old(self).wf(),
            data@.len() == 4 * width * height,
            is_alignment_mask(alignment_mask),
            4 * width + alignment_mask <= u32::MAX,
        ensures
            final(self).wf(),
            final(self).image == old(self).image,
            final(self).requirements_size == old(self).requirements_size,
            final(self).image_view == old(self).image_view,
            final(self).sampler == old(self).sampler,
            final(self).descriptor_set == old(self).descriptor_set,
            final(self).width == old(self).width,
            final(self).height == old(self).height,
            match r {
                Ok(plan) => ({
                    let pitch = spec_row_pitch((4 * width) as u32, alignment_mask) as int;
                    &&& offset_x + width <= old(self).width
                    &&& offset_y + height <= old(self).height
                    &&& forall|xx: int, yy: int, bb: int|
                        offset_x <= xx < offset_x + width && offset_y <= yy < offset_y + height
                            && 0 <= bb < 4
                            ==> #[trigger] texel_byte(final(self).texels@, old(self).width as int, xx, yy, bb)
                                == texel_byte(data@, width as int, xx - offset_x, yy - offset_y, bb)
                    &&& forall|xx: int, yy: int, bb: int|
                        0 <= xx < old(self).width && 0 <= yy < old(self).height && 0 <= bb < 4
                            && !(offset_x <= xx < offset_x + width && offset_y <= yy < offset_y + height)
                            ==> #[trigger] texel_byte(final(self).texels@, old(self).width as int, xx, yy, bb)
                                == texel_byte(old(self).texels@, old(self).width as int, xx, yy, bb)
                    &&& plan.staging_bytes@.len() == pitch * height
                    &&& forall|y: int, i: int|
                        0 <= y < height && 0 <= i < 4 * width
                            ==> #[trigger] staged_byte(plan.staging_bytes@, pitch, y, i)
                                == data@[y * (4 * width) + i]
                    &&& forall|y: int, i: int|
                        0 <= y < height && 4 * width <= i < pitch
                            ==> #[trigger] staged_byte(plan.staging_bytes@, pitch, y, i) == 0u8
                    &&& plan.staging_size == pitch * height
                    &&& plan.staging_usage == USAGE_TRANSFER_SRC
                    &&& 4 * plan.buffer_width == pitch
                    &&& plan.steps@ == spec_upload_steps(
                        plan.buffer_width, width, height, offset_x, offset_y)
                }),
                Err(e) => {
                    &&& e == LoadedImageError::OutOfBounds
                    &&& (offset_x + width > old(self).width || offset_y + height > old(self).height)
                    &&& *final(self) == *old(self)
                },
            },
    {
        if (offset_x as u64) + (width as u64) > (self.width as u64)
            || (offset_y as u64) + (height as u64) > (self.height as u64) {
            return Err(LoadedImageError::OutOfBounds);
        }
        let (staging_bytes, staging_size, buffer_width) =
            Self::create_staging_buffer(data, width, height, alignment_mask);
        let w = self.width;
        let h = self.height;
        blit_region(&mut self.texels, w, h, offset_x, offset_y, data, width, height);
        let steps = upload_steps(buffer_width, width, height, offset_x, offset_y);
        Ok(UploadPlan {
            staging_bytes,
            staging_size,
            staging_usage: USAGE_TRANSFER_SRC,
            buffer_width,
            steps,
        })
    }

    /// Releases the resource. Ownership is consumed: the resource cannot
    /// be used or released again. The caller must perform the returned
    /// steps in order against the owning device: sampler, image and view
    /// are destroyed before the memory they reference is freed.
    pub fn manually_drop(self) -> (steps: Vec<TeardownStep>)
        ensures
            steps@ == spec_image_teardown(),
    {
        let mut steps: Vec<TeardownStep> = Vec::new();
        steps.push(TeardownStep::DestroySampler);
        steps.push(TeardownStep::DestroyImage);
        steps.push(TeardownStep::DestroyImageView);
        steps.push(TeardownStep::FreeMemory);
        proof {
            assert(steps@ =~= spec_image_teardown());
        }
        steps
    }
}

/// The teardown order of an image resource.
pub open spec fn spec_image_teardown() -> Seq<TeardownStep> {
    seq![
        TeardownStep::DestroySampler,
        TeardownStep::DestroyImage,
        TeardownStep::DestroyImageView,
        TeardownStep::FreeMemory,
    ]
}

/// An image's teardown destroys the sampler, then the image, then the
/// view, and frees the memory strictly last, so no destruction step
/// references freed memory.
pub proof fn lemma_image_teardown_order()
    ensures
        spec_image_teardown().len() == 4,
        spec_image_teardown()[0] == TeardownStep::DestroySampler,
        spec_image_teardown()[1] == TeardownStep::DestroyImage,
        spec_image_teardown()[2] == TeardownStep::DestroyImageView,
        spec_image_teardown()[3] == TeardownStep::FreeMemory,
        forall|i: int|
            0 <= i < spec_image_teardown().len()
                && spec_image_teardown()[i] != TeardownStep::FreeMemory
                ==> i < 3,
{
}

} // verus!
