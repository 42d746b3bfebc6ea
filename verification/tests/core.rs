use holly::buffer::{get_memory_type_index, image_memory_type_index, AllocError, Buffer};
use holly::device::{
    choose_physical_device, DeviceError, LogicalDeviceBuilder, PhysicalDeviceInfo,
    QueueFamilyProperties,
};
use holly::flags::{
    MEMORY_DEVICE_LOCAL, MEMORY_HOST_COHERENT, MEMORY_HOST_VISIBLE, POOL_RESET_COMMAND_BUFFER,
    POOL_TRANSIENT, QUEUE_COMPUTE, QUEUE_GRAPHICS, QUEUE_TRANSFER, BUFFER_USAGE_TRANSFER_SRC,
    FORMAT_R8G8B8A8_SRGB, ACCESS_NONE, ACCESS_SHADER_READ, ACCESS_TRANSFER_WRITE,
    STAGE_FRAGMENT_SHADER, STAGE_TOP_OF_PIPE, STAGE_TRANSFER, IMAGE_USAGE_SAMPLED,
    IMAGE_USAGE_TRANSFER_DST,
};
use holly::image::{ImageLayout, ImageTexture, TextureError};
use holly::queues::{DeviceQueueCategory, DeviceQueues, QueueInfo};

fn family(flags: u32, count: u32, present: bool) -> QueueFamilyProperties {
    QueueFamilyProperties {
        queue_flags: flags,
        queue_count: count,
        present_support: present,
    }
}

#[test]
fn selection_picks_first_capable_device() {
    let devices = vec![
        PhysicalDeviceInfo {
            families: vec![family(QUEUE_TRANSFER, 1, false)],
        },
        PhysicalDeviceInfo {
            families: vec![
                family(QUEUE_TRANSFER, 1, false),
                family(QUEUE_GRAPHICS | QUEUE_COMPUTE | QUEUE_TRANSFER, 4, true),
            ],
        },
        PhysicalDeviceInfo {
            families: vec![family(QUEUE_GRAPHICS | QUEUE_COMPUTE | QUEUE_TRANSFER, 2, true)],
        },
    ];
    let required = vec![QUEUE_GRAPHICS, QUEUE_COMPUTE];
    assert_eq!(choose_physical_device(&devices, &required, true), Ok(1));
}

#[test]
fn selection_without_surface_requirement() {
    let devices = vec![PhysicalDeviceInfo {
        families: vec![family(QUEUE_GRAPHICS, 1, false)],
    }];
    let required = vec![QUEUE_GRAPHICS];
    assert_eq!(choose_physical_device(&devices, &required, false), Ok(0));
}

#[test]
fn unsatisfiable_requirements_report_no_suitable_device() {
    let devices = vec![
        PhysicalDeviceInfo {
            families: vec![family(QUEUE_GRAPHICS, 1, false)],
        },
        PhysicalDeviceInfo {
            families: vec![family(QUEUE_TRANSFER, 1, false)],
        },
    ];
    let required = vec![QUEUE_GRAPHICS | QUEUE_COMPUTE];
    assert_eq!(
        choose_physical_device(&devices, &required, false),
        Err(DeviceError::NoSuitableDevice)
    );
}

#[test]
fn surface_requirement_excludes_headless_family() {
    let devices = vec![PhysicalDeviceInfo {
        families: vec![family(QUEUE_GRAPHICS | QUEUE_COMPUTE | QUEUE_TRANSFER, 1, false)],
    }];
    let required = vec![QUEUE_GRAPHICS];
    assert_eq!(
        choose_physical_device(&devices, &required, true),
        Err(DeviceError::NoSuitableDevice)
    );
}

fn info(index: u32, count: u32, flags: u32) -> QueueInfo {
    QueueInfo {
        queue_index: index,
        queue_count: count,
        pool_flags: POOL_TRANSIENT | POOL_RESET_COMMAND_BUFFER,
        flags,
    }
}

#[test]
fn general_family_serves_every_category() {
    let q = DeviceQueues::new(&vec![info(0, 2, QUEUE_GRAPHICS | QUEUE_COMPUTE | QUEUE_TRANSFER)]);
    assert_eq!(q.general_idx, Some(0));
    assert_eq!(q.graphics_idx, Some(0));
    assert_eq!(q.surface_idx, Some(0));
    assert_eq!(q.compute_idx, Some(0));
    assert_eq!(q.transfer_idx, Some(0));
    assert_eq!(q.get_pool(&DeviceQueueCategory::Compute), 0);
    let queue = q.get_queue(&DeviceQueueCategory::Graphics, 1);
    assert_eq!(queue.family_index, 0);
    assert_eq!(queue.queue_index, 1);
}

#[test]
fn specialised_families_classify_and_pools_resolve() {
    let q = DeviceQueues::new(&vec![
        info(0, 1, QUEUE_GRAPHICS | QUEUE_COMPUTE | QUEUE_TRANSFER),
        info(1, 1, QUEUE_GRAPHICS | QUEUE_TRANSFER),
        info(2, 1, QUEUE_COMPUTE | QUEUE_TRANSFER),
        info(3, 1, QUEUE_TRANSFER),
    ]);
    assert_eq!(q.general_idx, Some(0));
    assert_eq!(q.graphics_idx, Some(1));
    assert_eq!(q.surface_idx, Some(1));
    assert_eq!(q.compute_idx, Some(2));
    assert_eq!(q.transfer_idx, Some(3));
    assert_eq!(q.get_pool(&DeviceQueueCategory::Graphics), 1);
    assert_eq!(q.get_pool(&DeviceQueueCategory::Compute), 2);
    assert_eq!(q.get_pool(&DeviceQueueCategory::Transfer), 3);
    // The graphics family doubles as the presentation family.
    assert_eq!(q.get_pool(&DeviceQueueCategory::Surface), 1);
    assert_eq!(q.get_queue(&DeviceQueueCategory::Surface, 0).family_index, 1);
    assert_eq!(q.get_present(0).unwrap().family_index, 1);
}

#[test]
fn unassigned_categories_fall_back_to_general() {
    let q = DeviceQueues::new(&vec![info(5, 1, QUEUE_GRAPHICS | QUEUE_COMPUTE | QUEUE_TRANSFER)]);
    assert_eq!(q.compute_idx, Some(5));
    assert_eq!(q.transfer_idx, Some(5));
    assert_eq!(q.get_graphics(0).unwrap().family_index, 5);
}

#[test]
fn no_general_family_leaves_specialists_alone() {
    let q = DeviceQueues::new(&vec![info(2, 1, QUEUE_COMPUTE | QUEUE_TRANSFER)]);
    assert_eq!(q.general_idx, None);
    assert_eq!(q.graphics_idx, None);
    assert_eq!(q.compute_idx, Some(2));
    assert!(q.get_graphics(0).is_none());
    assert!(q.get_present(0).is_none());
}

#[test]
fn builder_selects_device_and_classifies_queues() {
    let devices = vec![PhysicalDeviceInfo {
        families: vec![family(QUEUE_GRAPHICS | QUEUE_COMPUTE | QUEUE_TRANSFER, 2, true)],
    }];
    let builder = LogicalDeviceBuilder::new()
        .set_window()
        .add_swapchain_extension()
        .check_queue_support(QUEUE_GRAPHICS);
    let selection = vec![info(0, 2, QUEUE_GRAPHICS | QUEUE_COMPUTE | QUEUE_TRANSFER)];
    let device = builder.build(&devices, &selection).unwrap();
    assert_eq!(device.physical_device, 0);
    assert!(device.has_surface);
    assert_eq!(device.queues.general_idx, Some(0));
    assert_eq!(device.queues.graphics_idx, Some(0));
}

#[test]
fn builder_fails_on_incapable_enumeration() {
    let devices = vec![PhysicalDeviceInfo {
        families: vec![family(QUEUE_TRANSFER, 1, false)],
    }];
    let builder = LogicalDeviceBuilder::new().check_queue_support(QUEUE_GRAPHICS);
    let selection: Vec<QueueInfo> = vec![];
    assert!(matches!(
        builder.build(&devices, &selection),
        Err(DeviceError::NoSuitableDevice)
    ));
}

#[test]
fn memory_type_first_match_wins() {
    // Type 0 lacks the properties, type 1 is masked out, type 2 fits.
    let memory_types = vec![
        MEMORY_DEVICE_LOCAL,
        MEMORY_HOST_VISIBLE | MEMORY_HOST_COHERENT,
        MEMORY_HOST_VISIBLE | MEMORY_HOST_COHERENT,
    ];
    let type_bits = 0b101;
    let r = get_memory_type_index(MEMORY_HOST_VISIBLE | MEMORY_HOST_COHERENT, type_bits, &memory_types);
    assert_eq!(r, Some(2));
}

#[test]
fn memory_type_none_when_unsatisfiable() {
    let memory_types = vec![MEMORY_DEVICE_LOCAL, MEMORY_DEVICE_LOCAL];
    let r = get_memory_type_index(MEMORY_HOST_VISIBLE, 0b11, &memory_types);
    assert_eq!(r, None);
}

#[test]
fn image_memory_type_requires_a_device_local_match() {
    let memory_types = vec![MEMORY_HOST_VISIBLE, MEMORY_DEVICE_LOCAL];
    assert_eq!(image_memory_type_index(0b11, &memory_types), Ok(1));
    let only_host = vec![MEMORY_HOST_VISIBLE];
    assert_eq!(
        image_memory_type_index(0b1, &only_host),
        Err(AllocError::NoSuitableMemoryType)
    );
}

#[test]
fn allocation_capacity_matches_request() {
    let memory_types = vec![MEMORY_HOST_VISIBLE | MEMORY_HOST_COHERENT];
    let b = Buffer::<u32>::new(
        4096,
        BUFFER_USAGE_TRANSFER_SRC,
        MEMORY_HOST_VISIBLE | MEMORY_HOST_COHERENT,
        0b1,
        &memory_types,
    )
    .unwrap();
    assert_eq!(b.capacity_in_bytes(), 4096);
    assert_eq!(b.capacity(), 1024);
    assert_eq!(b.len(), 0);
}

#[test]
fn allocation_fails_fatally_without_memory_type() {
    let memory_types = vec![MEMORY_DEVICE_LOCAL];
    let r = Buffer::<u32>::new(
        64,
        BUFFER_USAGE_TRANSFER_SRC,
        MEMORY_HOST_VISIBLE,
        0b1,
        &memory_types,
    );
    assert_eq!(r.err(), Some(AllocError::NoSuitableMemoryType));
}

#[test]
fn mapped_append_round_trips() {
    let memory_types = vec![MEMORY_HOST_VISIBLE | MEMORY_HOST_COHERENT];
    let mut b = Buffer::<u32>::new(
        64,
        BUFFER_USAGE_TRANSFER_SRC,
        MEMORY_HOST_VISIBLE | MEMORY_HOST_COHERENT,
        0b1,
        &memory_types,
    )
    .unwrap();
    b.mapping(64, 0);
    let data = vec![7u32, 11, 13, 17, 19];
    b.append(&data);
    assert_eq!(b.len(), 5);
    assert_eq!(b.read_memory(), &[7u32, 11, 13, 17, 19]);
    let more = vec![23u32, 29];
    b.append(&more);
    assert_eq!(b.len(), 7);
    assert_eq!(b.read_memory(), &[7u32, 11, 13, 17, 19, 23, 29]);
}

#[test]
fn unmapped_append_advances_length_without_writing() {
    let memory_types = vec![MEMORY_HOST_VISIBLE | MEMORY_HOST_COHERENT];
    let mut b = Buffer::<u16>::new(
        32,
        BUFFER_USAGE_TRANSFER_SRC,
        MEMORY_HOST_VISIBLE | MEMORY_HOST_COHERENT,
        0b1,
        &memory_types,
    )
    .unwrap();
    let data = vec![1u16, 2, 3];
    b.append(&data);
    assert_eq!(b.len(), 3);
    assert_eq!(b.read_memory(), &[] as &[u16]);
}

#[test]
fn from_vec_is_allocated_mapped_and_written() {
    let memory_types = vec![MEMORY_HOST_VISIBLE | MEMORY_HOST_COHERENT];
    let data = vec![3u64, 1, 4, 1, 5];
    let b = Buffer::<u64>::from_vec(
        BUFFER_USAGE_TRANSFER_SRC,
        MEMORY_HOST_VISIBLE | MEMORY_HOST_COHERENT,
        0b1,
        &memory_types,
        &data,
    )
    .unwrap();
    assert_eq!(b.capacity_in_bytes(), 40);
    assert_eq!(b.len(), 5);
    assert_eq!(b.read_memory(), &[3u64, 1, 4, 1, 5]);
}

#[test]
fn staging_copy_region_covers_full_extent() {
    let memory_types = vec![MEMORY_HOST_VISIBLE | MEMORY_HOST_COHERENT];
    let b = Buffer::<u8>::new(
        16,
        BUFFER_USAGE_TRANSFER_SRC,
        MEMORY_HOST_VISIBLE | MEMORY_HOST_COHERENT,
        0b1,
        &memory_types,
    )
    .unwrap();
    let region = b.to_image(2, 2);
    assert_eq!(region.buffer_offset, 0);
    assert_eq!(region.width, 2);
    assert_eq!(region.height, 2);
    assert_eq!(region.depth, 1);
    assert_eq!(region.layer_count, 1);
    assert_eq!(region.mip_level, 0);
}

#[test]
fn supported_transitions_succeed_in_upload_order() {
    let first = ImageTexture::transition(ImageLayout::Undefined, ImageLayout::TransferDstOptimal)
        .unwrap();
    assert_eq!(first.src_access_mask, ACCESS_NONE);
    assert_eq!(first.dst_access_mask, ACCESS_TRANSFER_WRITE);
    assert_eq!(first.src_stage_mask, STAGE_TOP_OF_PIPE);
    assert_eq!(first.dst_stage_mask, STAGE_TRANSFER);

    let second = ImageTexture::transition(
        ImageLayout::TransferDstOptimal,
        ImageLayout::ShaderReadOnlyOptimal,
    )
    .unwrap();
    assert_eq!(second.src_access_mask, ACCESS_TRANSFER_WRITE);
    assert_eq!(second.dst_access_mask, ACCESS_SHADER_READ);
    assert_eq!(second.src_stage_mask, STAGE_TRANSFER);
    assert_eq!(second.dst_stage_mask, STAGE_FRAGMENT_SHADER);
}

#[test]
fn other_transitions_are_unsupported() {
    assert_eq!(
        ImageTexture::transition(ImageLayout::Undefined, ImageLayout::ShaderReadOnlyOptimal),
        Err(TextureError::UnsupportedTransition)
    );
    assert_eq!(
        ImageTexture::transition(ImageLayout::ShaderReadOnlyOptimal, ImageLayout::TransferDstOptimal),
        Err(TextureError::UnsupportedTransition)
    );
    assert_eq!(
        ImageTexture::transition(ImageLayout::PresentSrc, ImageLayout::ColorAttachmentOptimal),
        Err(TextureError::UnsupportedTransition)
    );
}

#[test]
fn upload_plan_stages_four_bytes_per_pixel() {
    let (texture, plan) = ImageTexture::new(640, 480);
    assert_eq!(texture.width, 640);
    assert_eq!(texture.height, 480);
    assert_eq!(texture.format, FORMAT_R8G8B8A8_SRGB);
    assert_eq!(plan.staging_size, 640 * 480 * 4);
    assert_eq!(plan.staging_usage, BUFFER_USAGE_TRANSFER_SRC);
    assert_eq!(plan.staging_properties, MEMORY_HOST_VISIBLE | MEMORY_HOST_COHERENT);
    assert_eq!(plan.image_usage, IMAGE_USAGE_TRANSFER_DST | IMAGE_USAGE_SAMPLED);
    assert_eq!(plan.first_transition.dst_access_mask, ACCESS_TRANSFER_WRITE);
    assert_eq!(plan.second_transition.dst_access_mask, ACCESS_SHADER_READ);
    assert_eq!(plan.copy.width, 640);
    assert_eq!(plan.copy.height, 480);
}
