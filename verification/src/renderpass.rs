//! The render-target pass description.
//!
//! One color attachment is cleared on load, stored on store, and handed to
//! the presentation engine; one subpass binds it as its sole color output;
//! and one explicit dependency from the external producer gates the
//! color-output stage, so the GPU cannot begin writing color before the
//! acquired image is actually available. These functions decide the whole
//! description; the device call that registers it lives outside the library.

use vstd::prelude::*;

use crate::swapchain::PixelFormat;

verus! {

/// What happens to an attachment's contents when the pass begins.
#[derive(Clone, Copy, Debug, PartialEq, Eq, Structural)]
pub enum LoadOp {
    Clear,
    Load,
    DontCare,
}

/// What happens to an attachment's contents when the pass ends.
#[derive(Clone, Copy, Debug, PartialEq, Eq, Structural)]
pub enum StoreOp {
    Store,
    DontCare,
}

/// The image layouts the pass transitions between.
#[derive(Clone, Copy, Debug, PartialEq, Eq, Structural)]
pub enum ImageLayout {
    Undefined,
    ColorAttachmentOptimal,
    PresentSrc,
}

/// The single color attachment of the pass.
#[derive(Clone, Copy, Debug, PartialEq, Eq, Structural)]
pub struct AttachmentDescription {
    pub format: PixelFormat,
    pub samples: u32,
    pub load_op: LoadOp,
    pub store_op: StoreOp,
    pub stencil_load_op: LoadOp,
    pub stencil_store_op: StoreOp,
    pub initial_layout: ImageLayout,
    pub final_layout: ImageLayout,
}

/// The one explicit dependency of the pass: from the implicit external
/// producer into subpass zero, gating on the color-attachment-output stage
/// on both sides and requiring read and write access to the attachment.
#[derive(Clone, Copy, Debug, PartialEq, Eq, Structural)]
pub struct SubpassDependency {
    /// The producing side is the implicit external subpass.
    pub src_external: bool,
    /// The consuming subpass; the pass has exactly one, at index zero.
    pub dst_subpass: u32,
    pub src_stage_color_output: bool,
    pub dst_stage_color_output: bool,
    pub dst_access_color_read: bool,
    pub dst_access_color_write: bool,
}

/// The full pass description: the attachment, the index it is bound at as
/// the sole color output of subpass zero, and the external dependency.
#[derive(Clone, Copy, Debug, PartialEq, Eq, Structural)]
pub struct RenderPassDescription {
    pub attachment: AttachmentDescription,
    /// Where subpass zero binds the attachment, in `ColorAttachmentOptimal`
    /// layout.
    pub color_attachment_index: u32,
    pub dependency: SubpassDependency,
}

/// Describes the pass for the negotiated format.
///
/// The attachment clears on load, stores on store, ignores stencil both
/// ways, enters undefined, leaves presentation-ready, and uses one sample;
/// the dependency comes from outside the pass and gates color output with
/// read and write access.
pub fn describe_render_pass(format: PixelFormat) -> (d: RenderPassDescription)
    ensures
        d.attachment.format == format,
        d.attachment.samples == 1,
        d.attachment.load_op == LoadOp::Clear,
        d.attachment.store_op == StoreOp::Store,
        d.attachment.stencil_load_op == LoadOp::DontCare,
        d.attachment.stencil_store_op == StoreOp::DontCare,
        d.attachment.initial_layout == ImageLayout::Undefined,
        d.attachment.final_layout == ImageLayout::PresentSrc,
        d.color_attachment_index == 0,
        d.dependency.src_external,
        d.dependency.dst_subpass == 0,
        d.dependency.src_stage_color_output,
        d.dependency.dst_stage_color_output,
        d.dependency.dst_access_color_read,
        d.dependency.dst_access_color_write,
{
    RenderPassDescription {
        attachment: AttachmentDescription {
            format,
            samples: 1,
            load_op: LoadOp::Clear,
            store_op: StoreOp::Store,
            stencil_load_op: LoadOp::DontCare,
            stencil_store_op: StoreOp::DontCare,
            initial_layout: ImageLayout::Undefined,
            final_layout: ImageLayout::PresentSrc,
        },
        color_attachment_index: 0,
        dependency: SubpassDependency {
            src_external: true,
            dst_subpass: 0,
            src_stage_color_output: true,
            dst_stage_color_output: true,
            dst_access_color_read: true,
            dst_access_color_write: true,
        },
    }
}

} // verus!
