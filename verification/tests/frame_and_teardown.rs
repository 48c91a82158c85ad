use scop::{
    command_recording_plan, debug_line, describe_pipeline, describe_render_pass, rebuild_plan,
    shader_entry_point, teardown_plan, u8_to_u32_slice, BlendFactor, Category, CullMode, Extent2d,
    FrameLoop, FrameStep, FrontFace, ImageLayout, LoadOp, PixelFormat, PolygonMode, RebuildStep, RenderError,
    ResourceCounts, Severity, StoreOp, TeardownStep, Topology,
};

fn counts(n: usize) -> ResourceCounts {
    ResourceCounts {
        image_views: n,
        framebuffers: n,
        command_buffers: n,
        image_available: n,
        rendering_finished: n,
        fences: n,
    }
}

#[test]
fn frame_loop_accepts_uniform_counts() {
    let fl = FrameLoop::new(&counts(3)).unwrap();
    assert_eq!(fl.image_count, 3);
    assert_eq!(fl.current_frame_index, 0);
}

#[test]
fn frame_loop_rejects_mismatched_counts() {
    let mut c = counts(3);
    c.fences = 2;
    assert_eq!(FrameLoop::new(&c).unwrap_err(), RenderError::SetupFatal);
    let mut c = counts(4);
    c.framebuffers = 3;
    assert_eq!(FrameLoop::new(&c).unwrap_err(), RenderError::SetupFatal);
}

#[test]
fn frame_loop_rejects_empty_counts() {
    assert_eq!(FrameLoop::new(&counts(0)).unwrap_err(), RenderError::SetupFatal);
}

#[test]
fn frame_index_advances_by_one_and_wraps() {
    let mut fl = FrameLoop::new(&counts(3)).unwrap();
    assert_eq!(fl.advance(), 1);
    assert_eq!(fl.advance(), 2);
    assert_eq!(fl.advance(), 0);
    assert_eq!(fl.advance(), 1);
    assert_eq!(fl.image_count, 3);
}

#[test]
fn frame_index_stays_in_range_over_many_frames() {
    let mut fl = FrameLoop::new(&counts(4)).unwrap();
    let mut previous = fl.current_frame_index;
    for _ in 0..25 {
        let slot = fl.advance();
        assert!(slot < 4);
        assert_eq!(slot, (previous + 1) % 4);
        previous = slot;
    }
}

#[test]
fn submission_uses_current_slot_and_acquired_image() {
    let mut fl = FrameLoop::new(&counts(3)).unwrap();
    fl.advance();
    let plan = fl.plan_submission(2);
    assert_eq!(plan.wait_semaphore_slot, 1);
    assert_eq!(plan.signal_semaphore_slot, 1);
    assert_eq!(plan.fence_slot, 1);
    assert_eq!(plan.command_buffer_index, 2);
    assert_eq!(plan.present_image_index, 2);
}

#[test]
fn teardown_waits_idle_before_destroying_anything() {
    let plan = teardown_plan();
    assert_eq!(plan[0], TeardownStep::WaitIdle);
    for step in plan.iter().skip(1) {
        assert_ne!(*step, TeardownStep::WaitIdle);
    }
}

#[test]
fn teardown_walks_reverse_dependency_order() {
    let plan = teardown_plan();
    assert_eq!(
        plan,
        vec![
            TeardownStep::WaitIdle,
            TeardownStep::DestroySyncObjects,
            TeardownStep::DestroyCommandPools,
            TeardownStep::DestroyPipeline,
            TeardownStep::DestroyPipelineLayout,
            TeardownStep::DestroyRenderPass,
            TeardownStep::DestroyFramebuffers,
            TeardownStep::DestroyImageViews,
            TeardownStep::DestroySwapchain,
            TeardownStep::DestroySurface,
            TeardownStep::DestroyDevice,
            TeardownStep::DestroyDebugMessenger,
            TeardownStep::DestroyInstance,
        ]
    );
}

#[test]
fn rebuild_destroys_stale_objects_before_creating_new_ones() {
    let plan = rebuild_plan();
    assert_eq!(plan[0], RebuildStep::WaitIdle);
    let first_create = plan
        .iter()
        .position(|s| *s == RebuildStep::CreateSwapchain)
        .unwrap();
    assert_eq!(
        &plan[first_create..],
        &[
            RebuildStep::CreateSwapchain,
            RebuildStep::CreateImageViews,
            RebuildStep::CreatePipeline,
            RebuildStep::CreateFramebuffers,
            RebuildStep::RecordCommandBuffers,
        ]
    );
    assert_eq!(
        &plan[..first_create],
        &[
            RebuildStep::WaitIdle,
            RebuildStep::FreeCommandBuffers,
            RebuildStep::DestroyFramebuffers,
            RebuildStep::DestroyPipeline,
            RebuildStep::DestroyPipelineLayout,
            RebuildStep::DestroyImageViews,
            RebuildStep::DestroySwapchain,
        ]
    );
}

#[test]
fn five_byte_shader_binary_is_rejected_before_any_device_call() {
    let blob: Vec<u8> = vec![1, 2, 3, 4, 5];
    assert_eq!(
        u8_to_u32_slice(&blob).unwrap_err(),
        RenderError::AlignmentError
    );
}

#[test]
fn aligned_shader_binary_becomes_little_endian_words() {
    let blob: Vec<u8> = vec![1, 0, 0, 0, 0x78, 0x56, 0x34, 0x12];
    assert_eq!(u8_to_u32_slice(&blob).unwrap(), vec![1, 0x1234_5678]);
}

#[test]
fn empty_shader_binary_becomes_no_words() {
    let blob: Vec<u8> = Vec::new();
    assert_eq!(u8_to_u32_slice(&blob).unwrap(), Vec::<u32>::new());
}

#[test]
fn render_pass_description_is_pinned() {
    let d = describe_render_pass(PixelFormat::B8g8r8a8Srgb);
    assert_eq!(d.attachment.format, PixelFormat::B8g8r8a8Srgb);
    assert_eq!(d.attachment.samples, 1);
    assert_eq!(d.attachment.load_op, LoadOp::Clear);
    assert_eq!(d.attachment.store_op, StoreOp::Store);
    assert_eq!(d.attachment.stencil_load_op, LoadOp::DontCare);
    assert_eq!(d.attachment.stencil_store_op, StoreOp::DontCare);
    assert_eq!(d.attachment.initial_layout, ImageLayout::Undefined);
    assert_eq!(d.attachment.final_layout, ImageLayout::PresentSrc);
    assert_eq!(d.color_attachment_index, 0);
    assert!(d.dependency.src_external);
    assert_eq!(d.dependency.dst_subpass, 0);
    assert!(d.dependency.src_stage_color_output);
    assert!(d.dependency.dst_stage_color_output);
    assert!(d.dependency.dst_access_color_read);
    assert!(d.dependency.dst_access_color_write);
}

#[test]
fn pipeline_description_is_pinned() {
    let extent = Extent2d { width: 640, height: 480 };
    let d = describe_pipeline(extent);
    assert_eq!(d.vertex_input_bindings, 0);
    assert_eq!(d.topology, Topology::PointList);
    assert_eq!(d.viewport_extent, extent);
    assert_eq!(d.polygon_mode, PolygonMode::Fill);
    assert_eq!(d.cull_mode, CullMode::NoCulling);
    assert_eq!(d.front_face, FrontFace::CounterClockwise);
    assert_eq!(d.sample_count, 1);
    assert!(d.blend_enable);
    assert_eq!(d.src_blend_factor, BlendFactor::SrcAlpha);
    assert_eq!(d.dst_blend_factor, BlendFactor::OneMinusSrcAlpha);
    assert_eq!(d.descriptor_set_count, 0);
    assert_eq!(d.push_constant_count, 0);
    assert_eq!(d.subpass, 0);
    assert_eq!(shader_entry_point(), "main");
}

#[test]
fn each_command_buffer_targets_its_own_framebuffer() {
    let extent = Extent2d { width: 800, height: 600 };
    let plans = command_recording_plan(3, extent);
    assert_eq!(plans.len(), 3);
    for (i, p) in plans.iter().enumerate() {
        assert_eq!(p.framebuffer_index, i);
        assert_eq!(p.render_area, extent);
        assert_eq!(p.vertex_count, 1);
        assert_eq!(p.instance_count, 1);
        assert_eq!(p.first_vertex, 0);
        assert_eq!(p.first_instance, 0);
    }
}

#[test]
fn diagnostic_lines_have_the_fixed_shape() {
    assert_eq!(
        debug_line(Severity::Error, Category::Validation, "boom"),
        "[error][validation] boom"
    );
    assert_eq!(
        debug_line(Severity::Verbose, Category::General, ""),
        "[verbose][general] "
    );
    assert_eq!(
        debug_line(Severity::Warning, Category::Performance, "slow path"),
        "[warning][performance] slow path"
    );
    assert_eq!(
        debug_line(Severity::Info, Category::General, "ready"),
        "[info][general] ready"
    );
}

#[test]
fn error_descriptions_name_each_failure() {
    assert_eq!(RenderError::NoSuitableDevice.describe(), "no suitable device");
    assert_eq!(RenderError::NoQueueFamily.describe(), "no suitable queue family");
    assert_eq!(
        RenderError::NoSupportedFormat.describe(),
        "no supported surface format"
    );
    assert_eq!(
        RenderError::AlignmentError.describe(),
        "shader binary is not 4-byte aligned"
    );
    assert_eq!(RenderError::SetupFatal.describe(), "fatal error during setup");
    assert_eq!(RenderError::FrameFatal.describe(), "fatal error in the frame loop");
}

#[test]
fn version_descriptors_pack_their_fields() {
    assert_eq!(scop::pack_version(0, 1, 0, 0), 0x0040_0000);
    assert_eq!(scop::pack_version(0, 1, 3, 0), 0x0040_3000);
    assert_eq!(scop::pack_version(1, 2, 3, 4), 0x2080_3004);
    assert_eq!(scop::application_version(), 0x0040_0000);
    assert_eq!(scop::target_api_version(), 0x0040_3000);
    assert_eq!(scop::validation_layer_name(), "VK_LAYER_KHRONOS_validation");
}

#[test]
fn frame_steps_run_in_the_only_safe_order() {
    let mut fl = FrameLoop::new(&counts(3)).unwrap();
    let slot = fl.advance();
    assert_eq!(slot, 1);
    let steps = fl.frame_steps(2);
    assert_eq!(
        steps,
        vec![
            FrameStep::WaitFence { slot: 1 },
            FrameStep::ResetFence { slot: 1 },
            FrameStep::Submit {
                wait_semaphore_slot: 1,
                signal_semaphore_slot: 1,
                fence_slot: 1,
                command_buffer_index: 2,
            },
            FrameStep::Present { wait_semaphore_slot: 1, image_index: 2 },
        ]
    );
}
