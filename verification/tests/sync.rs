use holly::batcher::RenderBatchBuilder;
use holly::flags::{
    COLOR_SPACE_SRGB_NONLINEAR, FORMAT_B8G8R8A8_SRGB, FORMAT_D24_UNORM_S8_UINT, FORMAT_D32_SFLOAT,
    FORMAT_FEATURE_DEPTH_STENCIL_ATTACHMENT, MEMORY_HOST_COHERENT, MEMORY_HOST_VISIBLE,
    PRESENT_MODE_FIFO, PRESENT_MODE_MAILBOX,
};
use holly::image::ImageLayout;
use holly::input::{GlobalInputState, InputKey, KEY_COUNT};
use holly::instance::{ApiVersion, VulkanInstance};
use holly::renderer::{extent_ready, first_valid_extent, Renderer};
use holly::swapchain::{
    find_depth_format, find_supported_format, AcquireResult, Extent2D, FormatProperties, LoadOp,
    PresentResult, StoreOp, SurfaceCapabilities, SurfaceFormat, Swapchain, SwapchainError,
    SwapchainState, SwapchainSupport, MAX_FRAMES,
};

fn caps(min_count: u32, max_count: u32, fixed: Option<Extent2D>) -> SurfaceCapabilities {
    SurfaceCapabilities {
        min_image_count: min_count,
        max_image_count: max_count,
        current_extent: fixed.unwrap_or(Extent2D {
            width: u32::MAX,
            height: u32::MAX,
        }),
        min_image_extent: Extent2D { width: 1, height: 1 },
        max_image_extent: Extent2D {
            width: 4096,
            height: 4096,
        },
        current_transform: 1,
    }
}

fn support(min_count: u32, max_count: u32) -> SwapchainSupport {
    SwapchainSupport {
        capabilities: caps(min_count, max_count, Some(Extent2D { width: 800, height: 600 })),
        formats: vec![
            SurfaceFormat {
                format: 44,
                color_space: COLOR_SPACE_SRGB_NONLINEAR,
            },
            SurfaceFormat {
                format: FORMAT_B8G8R8A8_SRGB,
                color_space: COLOR_SPACE_SRGB_NONLINEAR,
            },
        ],
        present_modes: vec![PRESENT_MODE_FIFO, PRESENT_MODE_MAILBOX],
    }
}

fn depth_props_all() -> Vec<FormatProperties> {
    vec![
        FormatProperties {
            linear_tiling_features: 0,
            optimal_tiling_features: FORMAT_FEATURE_DEPTH_STENCIL_ATTACHMENT,
        };
        3
    ]
}

fn new_chain() -> Swapchain {
    Swapchain::new(
        &support(2, 0),
        &depth_props_all(),
        Some(0),
        Some(0),
        Extent2D { width: 800, height: 600 },
    )
    .unwrap()
}

#[test]
fn chain_chooses_preferred_format_and_mailbox() {
    let s = new_chain();
    assert_eq!(s.format.format, FORMAT_B8G8R8A8_SRGB);
    assert_eq!(s.format.color_space, COLOR_SPACE_SRGB_NONLINEAR);
    assert_eq!(s.present_mode, PRESENT_MODE_MAILBOX);
    assert_eq!(s.extent, Extent2D { width: 800, height: 600 });
    assert_eq!(s.image_count, 3);
    assert_eq!(s.depth_format, FORMAT_D32_SFLOAT);
    assert_eq!(s.state, SwapchainState::Valid);
    assert_eq!(s.current_frame, 0);
    assert_eq!(s.in_flight_fence, vec![true; MAX_FRAMES]);
    assert_eq!(s.in_flight_images, vec![None; 3]);
    assert!(!s.sharing_concurrent);
}

#[test]
fn chain_falls_back_to_first_format_and_fifo() {
    let sup = SwapchainSupport {
        capabilities: caps(2, 0, Some(Extent2D { width: 100, height: 100 })),
        formats: vec![SurfaceFormat {
            format: 44,
            color_space: 7,
        }],
        present_modes: vec![PRESENT_MODE_FIFO],
    };
    let s = Swapchain::new(
        &sup,
        &depth_props_all(),
        None,
        None,
        Extent2D { width: 100, height: 100 },
    )
    .unwrap();
    assert_eq!(s.format.format, 44);
    assert_eq!(s.present_mode, PRESENT_MODE_FIFO);
}

#[test]
fn image_count_clamps_to_surface_maximum() {
    let s = Swapchain::new(
        &support(3, 3),
        &depth_props_all(),
        None,
        None,
        Extent2D { width: 800, height: 600 },
    )
    .unwrap();
    assert_eq!(s.image_count, 3);
}

#[test]
fn distinct_families_share_concurrently() {
    let s = Swapchain::new(
        &support(2, 0),
        &depth_props_all(),
        Some(1),
        Some(2),
        Extent2D { width: 800, height: 600 },
    )
    .unwrap();
    assert!(s.sharing_concurrent);
    assert_eq!(s.sharing_families, vec![1, 2]);
}

#[test]
fn free_extent_is_clamped_into_the_surface_range() {
    // With a free surface extent the request is clamped dimension-wise.
    let e = Swapchain::choose_extent(&caps(2, 0, None), Extent2D { width: 500, height: 400 });
    assert_eq!(e, Extent2D { width: 500, height: 400 });
    let clamped = Swapchain::choose_extent(&caps(2, 0, None), Extent2D { width: 5000, height: 0 });
    assert_eq!(clamped, Extent2D { width: 4096, height: 1 });
    // A fixed surface extent wins over the request.
    let fixed = Swapchain::choose_extent(
        &caps(2, 0, Some(Extent2D { width: 640, height: 480 })),
        Extent2D { width: 500, height: 400 },
    );
    assert_eq!(fixed, Extent2D { width: 640, height: 480 });
}

#[test]
fn depth_format_prefers_highest_precision() {
    assert_eq!(find_depth_format(&depth_props_all()), Ok(FORMAT_D32_SFLOAT));
    let only_last = vec![
        FormatProperties {
            linear_tiling_features: 0,
            optimal_tiling_features: 0,
        },
        FormatProperties {
            linear_tiling_features: FORMAT_FEATURE_DEPTH_STENCIL_ATTACHMENT,
            optimal_tiling_features: 0,
        },
        FormatProperties {
            linear_tiling_features: 0,
            optimal_tiling_features: FORMAT_FEATURE_DEPTH_STENCIL_ATTACHMENT,
        },
    ];
    assert_eq!(find_depth_format(&only_last), Ok(FORMAT_D24_UNORM_S8_UINT));
    let none = vec![
        FormatProperties {
            linear_tiling_features: 0,
            optimal_tiling_features: 0,
        };
        3
    ];
    assert_eq!(find_depth_format(&none), Err(SwapchainError::NoSupportedFormat));
}

#[test]
fn linear_tiling_consults_linear_features() {
    let candidates = vec![10, 20];
    let props = vec![
        FormatProperties {
            linear_tiling_features: 0,
            optimal_tiling_features: 0xffff_ffff,
        },
        FormatProperties {
            linear_tiling_features: 0x1,
            optimal_tiling_features: 0,
        },
    ];
    assert_eq!(
        find_supported_format(&candidates, &props, holly::flags::TILING_LINEAR, 0x1),
        Ok(20)
    );
}

#[test]
fn renderpass_keeps_color_and_discards_depth() {
    let plan = Swapchain::create_renderpass(FORMAT_B8G8R8A8_SRGB, FORMAT_D32_SFLOAT);
    assert_eq!(plan.color.format, FORMAT_B8G8R8A8_SRGB);
    assert_eq!(plan.color.load_op, LoadOp::Clear);
    assert_eq!(plan.color.store_op, StoreOp::Store);
    assert_eq!(plan.color.final_layout, ImageLayout::PresentSrc);
    assert_eq!(plan.depth.format, FORMAT_D32_SFLOAT);
    assert_eq!(plan.depth.load_op, LoadOp::Clear);
    assert_eq!(plan.depth.store_op, StoreOp::DontCare);
    assert_eq!(plan.depth.final_layout, ImageLayout::DepthStencilAttachmentOptimal);
    assert!(plan.dependency.src_external);
    assert_eq!(plan.dependency.dst_subpass, 0);
    assert_eq!(plan.subpass_count, 1);
}

#[test]
fn recreation_with_same_extent_is_idempotent() {
    let sup = support(2, 0);
    let props = depth_props_all();
    let extent = Extent2D { width: 800, height: 600 };
    let s1 = Swapchain::new(&sup, &props, Some(0), Some(0), extent).unwrap();
    let s2 = Swapchain::new(&sup, &props, Some(0), Some(0), extent).unwrap();
    assert_eq!(s1.image_count, s2.image_count);
    assert_eq!(s1.format, s2.format);
    assert_eq!(s1.extent, s2.extent);
}

#[test]
fn frame_pacing_waits_slot_fence_before_reuse() {
    let mut s = new_chain();
    // Frame 0 on slot 0.
    let (i0, _) = s
        .next_image(AcquireResult::Image { index: 0, suboptimal: false })
        .unwrap();
    s.submit(i0 as usize, PresentResult::Presented { suboptimal: false });
    assert_eq!(s.current_frame, 1);
    assert!(!s.in_flight_fence[0]);
    // Frame 1 on slot 1.
    let (i1, _) = s
        .next_image(AcquireResult::Image { index: 1, suboptimal: false })
        .unwrap();
    s.submit(i1 as usize, PresentResult::Presented { suboptimal: false });
    assert_eq!(s.current_frame, 0);
    assert!(!s.in_flight_fence[1]);
    // Frame 2 lands back on slot 0: its acquire blocks on slot 0's fence,
    // so the fence reads signaled before the command buffer is reused.
    s.next_image(AcquireResult::Image { index: 2, suboptimal: false })
        .unwrap();
    assert_eq!(s.current_frame, 0);
    assert!(s.in_flight_fence[0]);
    // Frame 3 continues the cycle on slot 1.
    s.submit(2, PresentResult::Presented { suboptimal: false });
    assert_eq!(s.current_frame, 1);
    s.next_image(AcquireResult::Image { index: 0, suboptimal: false })
        .unwrap();
    assert!(s.in_flight_fence[1]);
}

#[test]
fn image_reuse_blocks_on_pending_fence() {
    let mut s = new_chain();
    // Frame 0 (slot 0) draws into image 1.
    s.next_image(AcquireResult::Image { index: 1, suboptimal: false })
        .unwrap();
    s.submit(1, PresentResult::Presented { suboptimal: false });
    assert_eq!(s.in_flight_images[1], Some(0));
    assert!(!s.in_flight_fence[0]);
    // Frame 1 (slot 1) is handed image 1 again while slot 0's work on it
    // is still pending: submit must wait slot 0's fence out first.
    s.next_image(AcquireResult::Image { index: 1, suboptimal: false })
        .unwrap();
    assert!(!s.in_flight_fence[0]);
    s.submit(1, PresentResult::Presented { suboptimal: false });
    assert!(s.in_flight_fence[0]);
    assert_eq!(s.in_flight_images[1], Some(1));
    assert!(!s.in_flight_fence[1]);
}

#[test]
fn out_of_date_acquire_marks_chain_for_rebuild() {
    let mut s = new_chain();
    let r = s.next_image(AcquireResult::OutOfDate);
    assert_eq!(r, Err(SwapchainError::OutOfDate));
    assert_eq!(s.state, SwapchainState::OutOfDate);
}

#[test]
fn present_out_of_date_still_advances_the_frame() {
    let mut s = new_chain();
    s.next_image(AcquireResult::Image { index: 0, suboptimal: false })
        .unwrap();
    let (idx, r) = s.submit(0, PresentResult::OutOfDate);
    assert_eq!(idx, 0);
    assert_eq!(r, Err(SwapchainError::OutOfDate));
    assert_eq!(s.state, SwapchainState::OutOfDate);
    assert_eq!(s.current_frame, 1);
}

#[test]
fn suboptimal_present_is_reported() {
    let mut s = new_chain();
    s.next_image(AcquireResult::Image { index: 0, suboptimal: false })
        .unwrap();
    let (_, r) = s.submit(0, PresentResult::Presented { suboptimal: true });
    assert_eq!(r, Ok(true));
    assert_eq!(s.state, SwapchainState::Valid);
}

#[test]
fn renderer_hands_out_the_slot_buffer_after_the_wait() {
    let mut r = Renderer::new(new_chain());
    let slot = r
        .begin_command_buffer(AcquireResult::Image { index: 2, suboptimal: false })
        .unwrap();
    assert_eq!(slot, 0);
    assert_eq!(r.image_index, 2);
    assert!(r.swapchain.in_flight_fence[0]);
    let presented = r.draw(PresentResult::Presented { suboptimal: false }).unwrap();
    assert!(!presented);
    assert_eq!(r.swapchain.current_frame, 1);
    let slot1 = r
        .begin_command_buffer(AcquireResult::Image { index: 0, suboptimal: false })
        .unwrap();
    assert_eq!(slot1, 1);
}

#[test]
fn renderer_recreates_after_out_of_date() {
    let mut r = Renderer::new(new_chain());
    let e = r.begin_command_buffer(AcquireResult::OutOfDate);
    assert_eq!(e, Err(SwapchainError::OutOfDate));
    assert_eq!(r.swapchain.state, SwapchainState::OutOfDate);
    r.recreate_swapchain(
        Extent2D { width: 1024, height: 768 },
        &support(2, 0),
        &depth_props_all(),
        Some(0),
        Some(0),
    )
    .unwrap();
    assert_eq!(r.swapchain.state, SwapchainState::Valid);
    assert_eq!(r.swapchain.current_frame, 0);
    assert_eq!(r.swapchain.in_flight_fence, vec![true; MAX_FRAMES]);
}

#[test]
fn zero_area_extents_are_skipped_until_restore() {
    let polled = vec![
        Extent2D { width: 0, height: 0 },
        Extent2D { width: 800, height: 0 },
        Extent2D { width: 0, height: 600 },
        Extent2D { width: 800, height: 600 },
        Extent2D { width: 1024, height: 768 },
    ];
    assert!(!extent_ready(&polled[0]));
    assert!(!extent_ready(&polled[1]));
    assert!(extent_ready(&polled[3]));
    assert_eq!(first_valid_extent(&polled), Some(3));

    let minimised = vec![Extent2D { width: 0, height: 0 }; 4];
    assert_eq!(first_valid_extent(&minimised), None);

    // Exactly one recreation happens, at the first extent with area.
    let mut r = Renderer::new(new_chain());
    let i = first_valid_extent(&polled).unwrap();
    r.recreate_swapchain(polled[i], &support(2, 0), &depth_props_all(), Some(0), Some(0))
        .unwrap();
    assert_eq!(r.swapchain.state, SwapchainState::Valid);
    assert_eq!(r.swapchain.extent, Extent2D { width: 800, height: 600 });
}

#[test]
fn key_edges_follow_press_and_release() {
    let mut k = InputKey::new();
    assert!(!k.is_pressed());
    k.key_pressed();
    assert!(k.is_pressed());
    assert!(k.is_just_pressed());
    k.key_pressed();
    assert!(k.is_pressed());
    assert!(!k.is_just_pressed());
    k.key_unpressed();
    assert!(!k.is_pressed());
    assert!(k.is_just_unpressed());
    k.key_unpressed();
    assert!(!k.is_just_unpressed());
}

#[test]
fn global_input_tracks_keys_independently() {
    let mut g = GlobalInputState::new();
    g.poll(3, true);
    assert!(g.is_pressed(3));
    assert!(g.is_just_pressed(3));
    assert!(!g.is_pressed(4));
    g.poll(3, false);
    assert!(!g.is_pressed(3));
    assert!(g.is_just_unpressed(3));
    g.poll(KEY_COUNT - 1, true);
    assert!(g.is_pressed(KEY_COUNT - 1));
}

#[test]
fn api_versions_pack_as_the_registry_defines() {
    assert_eq!(ApiVersion::Type1_0.as_u32(), 4194304);
    assert_eq!(ApiVersion::Type1_1.as_u32(), 4198400);
    assert_eq!(ApiVersion::Type1_2.as_u32(), 4202496);
    assert_eq!(ApiVersion::Type1_3.as_u32(), 4206592);
}

#[test]
fn instance_builder_records_requests() {
    let instance = VulkanInstance::builder()
        .set_version(ApiVersion::Type1_0)
        .enable_debugging()
        .enable_window_extensions()
        .build();
    assert_eq!(instance.api_version, 4194304);
    assert!(instance.debugging);
    assert!(instance.window_extensions);
    assert!(!instance.descriptor_indexing);
}

#[test]
fn batcher_offsets_each_pushed_stream() {
    let builder = RenderBatchBuilder::<u32, u32>::new();
    let builder = builder.push(&vec![10, 20, 30], &vec![0u32, 1, 2, 2, 1, 0]);
    let builder = builder.push(&vec![40, 50], &vec![0u32, 1]);
    assert_eq!(builder.vertices, vec![10, 20, 30, 40, 50]);
    // The second source's indices are offset by the three vertices
    // already merged, so they point at its own vertices.
    assert_eq!(builder.indices, vec![0, 1, 2, 2, 1, 0, 3, 4]);
    let memory_types = vec![MEMORY_HOST_VISIBLE | MEMORY_HOST_COHERENT];
    let batch = builder.build(0b1, 0b1, &memory_types).unwrap();
    assert_eq!(batch.index_count, 8);
    assert_eq!(batch.vertices.read_memory(), &[10, 20, 30, 40, 50]);
    assert_eq!(batch.indices.read_memory(), &[0, 1, 2, 2, 1, 0, 3, 4]);
}

#[test]
fn batcher_build_fails_without_memory_type() {
    let builder = RenderBatchBuilder::<u32, u16>::new();
    let builder = builder.push(&vec![1], &vec![0u16]);
    let memory_types = vec![0u32];
    assert!(builder.build(0b1, 0b1, &memory_types).is_err());
}
