use gpu_staging::buffer_bundle::BufferBundle;
use gpu_staging::buffer_bundle::TeardownStep;
use gpu_staging::buffer_bundle::USAGE_TRANSFER_SRC;
use gpu_staging::errors::BufferError;
use gpu_staging::errors::LoadedImageError;
use gpu_staging::errors::MemoryWritingError;
use gpu_staging::loaded_image::descriptor_writes;
use gpu_staging::loaded_image::image_desc;
use gpu_staging::loaded_image::sampler_desc;
use gpu_staging::loaded_image::view_desc;
use gpu_staging::loaded_image::DescriptorRef;
use gpu_staging::loaded_image::Filter;
use gpu_staging::loaded_image::LoadedImage;
use gpu_staging::loaded_image::TexelFormat;
use gpu_staging::loaded_image::Tiling;
use gpu_staging::loaded_image::WrapMode;
use gpu_staging::memory::find_memory_type;
use gpu_staging::memory::select_memory_type;
use gpu_staging::memory::COHERENT;
use gpu_staging::memory::CPU_VISIBLE;
use gpu_staging::memory::DEVICE_LOCAL;
use gpu_staging::staging::fill_staging;
use gpu_staging::staging::row_pitch;
use gpu_staging::staging::upload_steps;
use gpu_staging::staging::AccessScope;
use gpu_staging::staging::ImageLayout;
use gpu_staging::staging::StageScope;
use gpu_staging::staging::UploadStep;

fn solid_image(width: u32, height: u32, texel: [u8; 4]) -> Vec<u8> {
    let mut v = Vec::new();
    for _ in 0..(width * height) {
        v.extend_from_slice(&texel);
    }
    v
}

const BLACK: [u8; 4] = [0, 0, 0, 255];
const WHITE: [u8; 4] = [255, 255, 255, 255];

fn make_image(img: &Vec<u8>, width: u32, height: u32, alignment_mask: u32) -> LoadedImage {
    let types: Vec<u32> = vec![CPU_VISIBLE, DEVICE_LOCAL];
    LoadedImage::allocate_and_create(
        &types,
        0b11,
        (img.len() as u64) * 2,
        alignment_mask,
        img,
        width,
        height,
        10,
        11,
        12,
        13,
    )
    .unwrap()
    .resource
}

#[test]
fn selector_returns_lowest_matching_index() {
    let types: Vec<u32> = vec![CPU_VISIBLE, CPU_VISIBLE | DEVICE_LOCAL, DEVICE_LOCAL];
    assert_eq!(find_memory_type(&types, 0b111, DEVICE_LOCAL), Some(1));
    assert_eq!(find_memory_type(&types, 0b111, CPU_VISIBLE), Some(0));
    // A cleared mask bit skips an otherwise matching type.
    assert_eq!(find_memory_type(&types, 0b100, DEVICE_LOCAL), Some(2));
}

#[test]
fn selector_is_deterministic_across_calls() {
    let types: Vec<u32> = vec![CPU_VISIBLE | COHERENT, DEVICE_LOCAL, CPU_VISIBLE];
    for _ in 0..4 {
        assert_eq!(find_memory_type(&types, 0b111, CPU_VISIBLE), Some(0));
        assert_eq!(select_memory_type(&types, 0b111, DEVICE_LOCAL), Ok(1));
    }
}

#[test]
fn selector_with_no_match_reports_memory_type_not_found() {
    let types: Vec<u32> = vec![CPU_VISIBLE, DEVICE_LOCAL];
    assert_eq!(select_memory_type(&types, 0b11, COHERENT), Err(BufferError::MemoryId));
    // A mask that admits no type fails the same way.
    assert_eq!(select_memory_type(&types, 0, DEVICE_LOCAL), Err(BufferError::MemoryId));
    assert_eq!(find_memory_type(&types, 0b11, COHERENT), None);
}

#[test]
fn buffer_new_maps_full_requirement_when_asked() {
    let b = BufferBundle::new(16, 64, USAGE_TRANSFER_SRC, true);
    assert_eq!(b.requirements_size, 64);
    assert_eq!(b.read_mapped(0, 64), vec![0u8; 64]);
    let unmapped = BufferBundle::new(16, 64, USAGE_TRANSFER_SRC, false);
    assert!(unmapped.mapped.is_none());
}

#[test]
fn buffer_update_then_read_yields_data() {
    let mut b = BufferBundle::new(64, 64, USAGE_TRANSFER_SRC, true);
    let data: Vec<u8> = vec![1, 2, 3, 4];
    assert_eq!(b.update_buffer(&data, 8), Ok(()));
    assert_eq!(b.read_mapped(8, 4), vec![1, 2, 3, 4]);
    // Bytes outside the written range are untouched.
    assert_eq!(b.read_mapped(0, 8), vec![0u8; 8]);
    assert_eq!(b.read_mapped(12, 52), vec![0u8; 52]);
    // A write ending exactly at the requirement size is in bounds.
    assert_eq!(b.update_buffer(&data, 60), Ok(()));
    assert_eq!(b.read_mapped(60, 4), vec![1, 2, 3, 4]);
}

#[test]
fn buffer_update_out_of_bounds_is_a_no_op_failure() {
    let mut b = BufferBundle::new(64, 64, USAGE_TRANSFER_SRC, true);
    let data: Vec<u8> = vec![9, 9, 9, 9];
    assert_eq!(b.update_buffer(&data, 61), Err(MemoryWritingError::OutOfBounds));
    assert_eq!(b.read_mapped(0, 64), vec![0u8; 64]);
}

#[test]
fn buffer_has_room_checks_requirement_size() {
    let b = BufferBundle::new(16, 64, USAGE_TRANSFER_SRC, false);
    assert!(b.has_room(64));
    assert!(b.has_room(16));
    assert!(!b.has_room(65));
}

#[test]
fn buffer_flush_covers_full_mapped_range() {
    let b = BufferBundle::new(16, 64, USAGE_TRANSFER_SRC, true);
    assert_eq!(b.flush(), (0, 64));
}

#[test]
fn buffer_release_destroys_before_freeing() {
    let b = BufferBundle::new(16, 64, USAGE_TRANSFER_SRC, false);
    let steps = b.manually_drop();
    assert_eq!(steps, vec![TeardownStep::DestroyBuffer, TeardownStep::FreeMemory]);
}

#[test]
fn image_release_orders_sampler_image_view_memory() {
    let img = solid_image(2, 2, BLACK);
    let resource = make_image(&img, 2, 2, 63);
    let steps = resource.manually_drop();
    assert_eq!(
        steps,
        vec![
            TeardownStep::DestroySampler,
            TeardownStep::DestroyImage,
            TeardownStep::DestroyImageView,
            TeardownStep::FreeMemory,
        ]
    );
}

#[test]
fn row_pitch_rounds_up_to_power_of_two_alignments() {
    // Alignment 1: the packed row size is kept.
    assert_eq!(row_pitch(8, 0), 8);
    // Alignment 4 on an already aligned row size.
    assert_eq!(row_pitch(12, 3), 12);
    // Alignment 64 pads an 8-byte row to 64.
    assert_eq!(row_pitch(8, 63), 64);
    // Alignment 128 pads a 132-byte row to 256.
    assert_eq!(row_pitch(132, 127), 256);
    for shift in 0..16u32 {
        let mask = (1u32 << shift) - 1;
        let pitch = row_pitch(4 * 33, mask);
        assert!(pitch >= 4 * 33);
        assert_eq!(pitch % (mask + 1), 0);
        assert!(pitch <= 4 * 33 + mask);
    }
}

#[test]
fn staging_copy_lands_rows_at_padded_offsets() {
    let img = vec![0xFFu8; 16];
    let pitch = row_pitch(8, 63);
    assert_eq!(pitch, 64);
    let staged = fill_staging(&img, 2, 2, pitch);
    assert_eq!(staged.len(), 128);
    for y in 0..2usize {
        for i in 0..64usize {
            let expected = if i < 8 { 0xFF } else { 0 };
            assert_eq!(staged[y * 64 + i], expected, "row {} byte {}", y, i);
        }
    }
}

#[test]
fn upload_steps_record_barrier_copy_barrier_then_sync_and_cleanup() {
    let steps = upload_steps(16, 2, 2, 0, 0);
    assert_eq!(steps.len(), 10);
    match steps[0] {
        UploadStep::Barrier(b) => {
            assert_eq!(b.from_layout, ImageLayout::Undefined);
            assert_eq!(b.to_layout, ImageLayout::TransferDstOptimal);
            assert_eq!(b.from_access, AccessScope::NoAccess);
            assert_eq!(b.to_access, AccessScope::TransferWrite);
            assert_eq!(b.from_stage, StageScope::TopOfPipe);
            assert_eq!(b.to_stage, StageScope::Transfer);
        }
        _ => panic!("first step must be the entry barrier"),
    }
    match steps[1] {
        UploadStep::CopyBufferToImage(c) => {
            assert_eq!(c.buffer_offset, 0);
            assert_eq!(c.buffer_width, 16);
            assert_eq!(c.buffer_height, 2);
            assert_eq!((c.offset_x, c.offset_y), (0, 0));
            assert_eq!((c.extent_width, c.extent_height, c.extent_depth), (2, 2, 1));
        }
        _ => panic!("second step must be the copy"),
    }
    match steps[2] {
        UploadStep::Barrier(b) => {
            assert_eq!(b.from_layout, ImageLayout::TransferDstOptimal);
            assert_eq!(b.to_layout, ImageLayout::ShaderReadOnlyOptimal);
            assert_eq!(b.from_access, AccessScope::TransferWrite);
            assert_eq!(b.to_access, AccessScope::ShaderRead);
            assert_eq!(b.from_stage, StageScope::Transfer);
            assert_eq!(b.to_stage, StageScope::FragmentShader);
        }
        _ => panic!("third step must be the exit barrier"),
    }
    assert_eq!(steps[3], UploadStep::CreateFence);
    assert_eq!(steps[4], UploadStep::SubmitWithFence);
    assert_eq!(steps[5], UploadStep::WaitForFence);
    assert_eq!(steps[6], UploadStep::DestroyFence);
    assert_eq!(steps[7], UploadStep::FreeCommandBuffer);
    assert_eq!(steps[8], UploadStep::DestroyStagingBuffer);
    assert_eq!(steps[9], UploadStep::FreeStagingMemory);
}

#[test]
fn allocate_and_create_stages_pixels_and_writes_both_bindings() {
    let img = vec![0xFFu8; 16];
    let types: Vec<u32> = vec![CPU_VISIBLE, DEVICE_LOCAL];
    let created = LoadedImage::allocate_and_create(
        &types, 0b11, 128, 63, &img, 2, 2, 10, 11, 12, 13,
    )
    .unwrap();
    assert_eq!(created.memory_type_id, 1);

    // The staging copy holds the 16 bytes at the row-padded offsets.
    assert_eq!(created.upload.staging_size, 128);
    assert_eq!(created.upload.buffer_width, 16);
    assert_eq!(created.upload.staging_bytes.len(), 128);
    for y in 0..2usize {
        for i in 0..64usize {
            let expected = if i < 8 { 0xFF } else { 0 };
            assert_eq!(created.upload.staging_bytes[y * 64 + i], expected);
        }
    }

    // Binding 0 is the created view, binding 1 the created sampler.
    let writes = &created.descriptor_writes;
    assert_eq!(writes.len(), 2);
    assert_eq!(writes[0].set, 13);
    assert_eq!(writes[0].binding, 0);
    assert_eq!(writes[0].array_offset, 0);
    assert_eq!(
        writes[0].descriptor,
        DescriptorRef::ImageViewSampled { view: 11, layout: ImageLayout::ShaderReadOnlyOptimal }
    );
    assert_eq!(writes[1].set, 13);
    assert_eq!(writes[1].binding, 1);
    assert_eq!(writes[1].descriptor, DescriptorRef::SamplerHandle { sampler: 12 });

    // The resource models the uploaded pixels.
    for x in 0..2 {
        for y in 0..2 {
            for b in 0..4 {
                assert_eq!(created.resource.texel_byte_at(x, y, b), 0xFF);
            }
        }
    }
}

#[test]
fn allocate_and_create_without_device_local_type_fails() {
    let img = vec![0u8; 16];
    let types: Vec<u32> = vec![CPU_VISIBLE, CPU_VISIBLE | COHERENT];
    let r = LoadedImage::allocate_and_create(
        &types, 0b11, 128, 63, &img, 2, 2, 10, 11, 12, 13,
    );
    assert!(matches!(r, Err(BufferError::MemoryId)));
}

#[test]
fn edit_region_whitens_only_the_addressed_sub_region() {
    let img = solid_image(4, 4, BLACK);
    let mut resource = make_image(&img, 4, 4, 63);
    let patch = solid_image(2, 2, WHITE);
    let plan = resource.edit_image(2, 2, 2, 2, &patch, 63).unwrap();
    assert_eq!(plan.steps.len(), 10);
    match plan.steps[1] {
        UploadStep::CopyBufferToImage(c) => {
            assert_eq!((c.offset_x, c.offset_y), (2, 2));
            assert_eq!((c.extent_width, c.extent_height), (2, 2));
        }
        _ => panic!("second step must be the copy"),
    }
    for x in 0..4 {
        for y in 0..4 {
            let expected = if x >= 2 && y >= 2 { WHITE } else { BLACK };
            for b in 0..4 {
                assert_eq!(
                    resource.texel_byte_at(x, y, b),
                    expected[b as usize],
                    "texel ({}, {}) byte {}",
                    x,
                    y,
                    b
                );
            }
        }
    }
}

#[test]
fn edit_region_out_of_bounds_fails_cleanly() {
    let img = solid_image(4, 4, BLACK);
    let mut resource = make_image(&img, 4, 4, 63);
    let patch = solid_image(2, 2, WHITE);
    let r = resource.edit_image(2, 2, 3, 3, &patch, 63);
    assert!(matches!(r, Err(LoadedImageError::OutOfBounds)));
    // Nothing changed.
    for x in 0..4 {
        for y in 0..4 {
            for b in 0..4 {
                assert_eq!(resource.texel_byte_at(x, y, b), BLACK[b as usize]);
            }
        }
    }
}

#[test]
fn edit_region_staging_pads_each_patch_row() {
    let img = solid_image(4, 4, BLACK);
    let mut resource = make_image(&img, 4, 4, 63);
    let patch = solid_image(2, 2, WHITE);
    let plan = resource.edit_image(2, 2, 0, 0, &patch, 63).unwrap();
    assert_eq!(plan.staging_size, 128);
    assert_eq!(plan.staging_bytes.len(), 128);
    for y in 0..2usize {
        for i in 0..64usize {
            let expected = if i < 8 { 255 } else { 0 };
            assert_eq!(plan.staging_bytes[y * 64 + i], expected);
        }
    }
}

#[test]
fn creation_descriptions_carry_the_fixed_format() {
    let d = image_desc(4, 4);
    assert_eq!((d.width, d.height), (4, 4));
    assert_eq!((d.layers, d.samples, d.mip_levels), (1, 1, 1));
    assert_eq!(d.format, TexelFormat::Rgba8Srgb);
    assert_eq!(d.tiling, Tiling::Optimal);
    assert_eq!(d.usage, 0x2 | 0x4);

    let v = view_desc();
    assert_eq!(v.format, TexelFormat::Rgba8Srgb);
    assert!(v.identity_swizzle);
    assert!(v.color_aspect);
    assert_eq!((v.mip_start, v.mip_count), (0, 1));
    assert_eq!((v.layer_start, v.layer_count), (0, 1));

    let s = sampler_desc(Filter::Nearest);
    assert_eq!(s.min_filter, Filter::Nearest);
    assert_eq!(s.mag_filter, Filter::Nearest);
    assert_eq!(s.wrap, WrapMode::Clamp);

    let w = descriptor_writes(5, 6, 7);
    assert_eq!(w.len(), 2);
    assert_eq!((w[0].set, w[0].binding), (5, 0));
    assert_eq!((w[1].set, w[1].binding), (5, 1));
}
