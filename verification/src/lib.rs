//! Decision core of a windowed GPU renderer.
//!
//! Everything a renderer has to decide before and between device calls lives
//! here as verified code: picking a physical device and its queue families,
//! negotiating the swapchain (present mode, surface format, image count,
//! extent), packing shader binaries into words, pacing the frame loop, and
//! ordering teardown. The unverified shell that owns the window and the raw
//! GPU handles calls into this crate for every such decision.

mod context;
mod device;
mod diagnostics;
mod error;
mod frame;
mod pipeline;
mod renderpass;
mod shader;
mod swapchain;
mod teardown;

pub use context::application_version;
pub use context::pack_version;
pub use context::spec_pack_version;
pub use context::target_api_version;
pub use context::validation_layer_name;
pub use device::dedicated_transfer;
pub use device::device_rank;
pub use device::graphics_candidate;
pub use device::pick_physical_device;
pub use device::queue_create_requests;
pub use device::select_queue_families;
pub use device::spec_queue_requests;
pub use device::transfer_capable;
pub use device::DeviceClass;
pub use device::QueueFamily;
pub use device::QueueSelection;
pub use diagnostics::category_label;
pub use diagnostics::category_label_spec;
pub use diagnostics::debug_line;
pub use diagnostics::debug_line_spec;
pub use diagnostics::severity_label;
pub use diagnostics::severity_label_spec;
pub use diagnostics::Category;
pub use diagnostics::Severity;
pub use error::RenderError;
pub use frame::frame_steps_spec;
pub use frame::lemma_frame_index_advances;
pub use frame::FrameLoop;
pub use frame::FrameStep;
pub use frame::ResourceCounts;
pub use frame::SubmissionPlan;
pub use pipeline::command_recording_plan;
pub use pipeline::describe_pipeline;
pub use pipeline::shader_entry_point;
pub use pipeline::BlendFactor;
pub use pipeline::CullMode;
pub use pipeline::FrontFace;
pub use pipeline::PipelineDescription;
pub use pipeline::PolygonMode;
pub use pipeline::RecordingPlan;
pub use pipeline::Topology;
pub use renderpass::describe_render_pass;
pub use renderpass::AttachmentDescription;
pub use renderpass::ImageLayout;
pub use renderpass::LoadOp;
pub use renderpass::RenderPassDescription;
pub use renderpass::StoreOp;
pub use renderpass::SubpassDependency;
pub use shader::le_word_at;
pub use shader::u8_to_u32_slice;
pub use swapchain::choose_extent;
pub use swapchain::choose_image_count;
pub use swapchain::choose_present_mode;
pub use swapchain::choose_surface_format;
pub use swapchain::chosen_format;
pub use swapchain::format_candidate;
pub use swapchain::lemma_format_keeps_srgb_space;
pub use swapchain::lemma_present_mode_is_most_preferred;
pub use swapchain::negotiate;
pub use swapchain::pixel_format_rank;
pub use swapchain::present_mode_rank;
pub use swapchain::spec_choose_extent;
pub use swapchain::spec_choose_present_mode;
pub use swapchain::spec_clamp;
pub use swapchain::spec_image_count;
pub use swapchain::ColorSpace;
pub use swapchain::Extent2d;
pub use swapchain::PixelFormat;
pub use swapchain::PresentMode;
pub use swapchain::SurfaceCapabilities;
pub use swapchain::SurfaceFormat;
pub use swapchain::SwapchainConfig;
pub use swapchain::EXTENT_UNDEFINED;
pub use teardown::destroys_device_owned;
pub use teardown::is_destroy_step;
pub use teardown::is_rebuild_create;
pub use teardown::is_rebuild_destroy;
pub use teardown::lemma_idle_wait_precedes_destruction;
pub use teardown::lemma_rebuild_order;
pub use teardown::lemma_teardown_reverse_dependency_order;
pub use teardown::rebuild_plan;
pub use teardown::rebuild_seq;
pub use teardown::teardown_plan;
pub use teardown::teardown_seq;
pub use teardown::RebuildStep;
pub use teardown::TeardownStep;
