//! Shutdown and resize planning.
//!
//! GPU objects must be destroyed in strict reverse dependency order, and
//! never while a queue submission that references them is still pending on
//! the device. Both plans therefore open with an idle-wait that drains the
//! queue, and only then destroy, children before parents. The shell that
//! owns the raw handles walks a plan step by step.

use vstd::prelude::*;

verus! {

/// One step of the shutdown walk.
#[derive(Clone, Copy, Debug, PartialEq, Eq, Structural)]
pub enum TeardownStep {
    /// Block until the device has finished all submitted work.
    WaitIdle,
    /// Destroy the per-slot semaphores and fences.
    DestroySyncObjects,
    DestroyCommandPools,
    DestroyPipeline,
    DestroyPipelineLayout,
    DestroyRenderPass,
    DestroyFramebuffers,
    DestroyImageViews,
    DestroySwapchain,
    DestroySurface,
    DestroyDevice,
    DestroyDebugMessenger,
    DestroyInstance,
}

/// Whether a step destroys something (every step but the idle-wait does).
pub open spec fn is_destroy_step(s: TeardownStep) -> bool {
    s != TeardownStep::WaitIdle
}

/// Whether a step destroys an object that the logical device owns — one a
/// pending submission could still reference.
pub open spec fn destroys_device_owned(s: TeardownStep) -> bool {
    match s {
        TeardownStep::DestroySyncObjects => true,
        TeardownStep::DestroyCommandPools => true,
        TeardownStep::DestroyPipeline => true,
        TeardownStep::DestroyPipelineLayout => true,
        TeardownStep::DestroyRenderPass => true,
        TeardownStep::DestroyFramebuffers => true,
        TeardownStep::DestroyImageViews => true,
        TeardownStep::DestroySwapchain => true,
        _ => false,
    }
}

/// The complete shutdown order: drain the queue, then walk the ownership
/// graph leaves-first — the per-slot sync objects, command buffers and
/// pools, pipeline and its layout, render pass, the extent-dependent chain
/// objects, surface, device, debug messenger, and the instance last.
pub open spec fn teardown_seq() -> Seq<TeardownStep> {
    seq![
        TeardownStep::WaitIdle,
        TeardownStep::DestroySyncObjects,
        TeardownStep::DestroyCommandPools,
        TeardownStep::DestroyPipeline,
        TeardownStep::DestroyPipelineLayout,
        TeardownStep::DestroyRenderPass,
        TeardownStep::DestroyFramebuffers,
        TeardownStep::DestroyImageViews,
        TeardownStep::DestroySwapchain,
        TeardownStep::DestroySurface,
        TeardownStep::DestroyDevice,
        TeardownStep::DestroyDebugMessenger,
        TeardownStep::DestroyInstance,
    ]
}

/// Builds the shutdown plan.
pub fn teardown_plan() -> (plan: Vec<TeardownStep>)
    ensures
        plan@ == teardown_seq(),
{
    let mut plan: Vec<TeardownStep> = Vec::new();
    plan.push(TeardownStep::WaitIdle);
    plan.push(TeardownStep::DestroySyncObjects);
    plan.push(TeardownStep::DestroyCommandPools);
    plan.push(TeardownStep::DestroyPipeline);
    plan.push(TeardownStep::DestroyPipelineLayout);
    plan.push(TeardownStep::DestroyRenderPass);
    plan.push(TeardownStep::DestroyFramebuffers);
    plan.push(TeardownStep::DestroyImageViews);
    plan.push(TeardownStep::DestroySwapchain);
    plan.push(TeardownStep::DestroySurface);
    plan.push(TeardownStep::DestroyDevice);
    plan.push(TeardownStep::DestroyDebugMessenger);
    plan.push(TeardownStep::DestroyInstance);
    proof {
        assert(plan@ =~= teardown_seq());
    }
    plan
}

/// Nothing is destroyed while a submission could still be pending: the
/// queue-draining idle-wait is the very first step of the shutdown plan, so
/// it precedes every destroy step.
pub proof fn lemma_idle_wait_precedes_destruction()
    ensures
        teardown_seq()[0] == TeardownStep::WaitIdle,
        forall|i: int|
            0 <= i < teardown_seq().len() && is_destroy_step(#[trigger] teardown_seq()[i]) ==> 0
                < i,
{
}

/// Children go before their parents: every device-owned object is destroyed
/// before the device, and the device before the instance.
pub proof fn lemma_teardown_reverse_dependency_order()
    ensures
        forall|i: int, j: int|
            0 <= i < teardown_seq().len() && 0 <= j < teardown_seq().len() && destroys_device_owned(
                #[trigger] teardown_seq()[i],
            ) && #[trigger] teardown_seq()[j] == TeardownStep::DestroyDevice ==> i < j,
        forall|i: int, j: int|
            0 <= i < teardown_seq().len() && 0 <= j < teardown_seq().len()
                && #[trigger] teardown_seq()[i] == TeardownStep::DestroyDevice
                && #[trigger] teardown_seq()[j] == TeardownStep::DestroyInstance ==> i < j,
{
}

/// One step of the resize walk, which rebuilds everything that depends on
/// the swapchain extent while the instance, surface, device, render pass and
/// the per-slot synchronization objects are kept.
#[derive(Clone, Copy, Debug, PartialEq, Eq, Structural)]
pub enum RebuildStep {
    /// Block until the device has finished all submitted work.
    WaitIdle,
    FreeCommandBuffers,
    DestroyFramebuffers,
    DestroyPipeline,
    DestroyPipelineLayout,
    DestroyImageViews,
    DestroySwapchain,
    /// Re-negotiate against the surface and create the new chain.
    CreateSwapchain,
    CreateImageViews,
    /// Rebuild the pipeline; only its viewport and scissor change.
    CreatePipeline,
    CreateFramebuffers,
    RecordCommandBuffers,
}

/// Whether a resize step tears something down rather than building it.
pub open spec fn is_rebuild_destroy(s: RebuildStep) -> bool {
    match s {
        RebuildStep::FreeCommandBuffers => true,
        RebuildStep::DestroyFramebuffers => true,
        RebuildStep::DestroyPipeline => true,
        RebuildStep::DestroyPipelineLayout => true,
        RebuildStep::DestroyImageViews => true,
        RebuildStep::DestroySwapchain => true,
        _ => false,
    }
}

/// Whether a resize step builds something anew.
pub open spec fn is_rebuild_create(s: RebuildStep) -> bool {
    match s {
        RebuildStep::CreateSwapchain => true,
        RebuildStep::CreateImageViews => true,
        RebuildStep::CreatePipeline => true,
        RebuildStep::CreateFramebuffers => true,
        RebuildStep::RecordCommandBuffers => true,
        _ => false,
    }
}

/// The complete resize order: drain the queue, tear down the old
/// extent-dependent objects leaves-first, then rebuild them in dependency
/// order — swapchain, views, pipeline, framebuffers, command buffers.
pub open spec fn rebuild_seq() -> Seq<RebuildStep> {
    seq![
        RebuildStep::WaitIdle,
        RebuildStep::FreeCommandBuffers,
        RebuildStep::DestroyFramebuffers,
        RebuildStep::DestroyPipeline,
        RebuildStep::DestroyPipelineLayout,
        RebuildStep::DestroyImageViews,
        RebuildStep::DestroySwapchain,
        RebuildStep::CreateSwapchain,
        RebuildStep::CreateImageViews,
        RebuildStep::CreatePipeline,
        RebuildStep::CreateFramebuffers,
        RebuildStep::RecordCommandBuffers,
    ]
}

/// Builds the plan that a window-resize signal triggers.
pub fn rebuild_plan() -> (plan: Vec<RebuildStep>)
    ensures
        plan@ == rebuild_seq(),
{
    let mut plan: Vec<RebuildStep> = Vec::new();
    plan.push(RebuildStep::WaitIdle);
    plan.push(RebuildStep::FreeCommandBuffers);
    plan.push(RebuildStep::DestroyFramebuffers);
    plan.push(RebuildStep::DestroyPipeline);
    plan.push(RebuildStep::DestroyPipelineLayout);
    plan.push(RebuildStep::DestroyImageViews);
    plan.push(RebuildStep::DestroySwapchain);
    plan.push(RebuildStep::CreateSwapchain);
    plan.push(RebuildStep::CreateImageViews);
    plan.push(RebuildStep::CreatePipeline);
    plan.push(RebuildStep::CreateFramebuffers);
    plan.push(RebuildStep::RecordCommandBuffers);
    proof {
        assert(plan@ =~= rebuild_seq());
    }
    plan
}

/// The resize walk also drains the queue before destroying anything, and
/// destroys every stale object before it creates any replacement.
pub proof fn lemma_rebuild_order()
    ensures
        rebuild_seq()[0] == RebuildStep::WaitIdle,
        forall|i: int|
            0 <= i < rebuild_seq().len() && is_rebuild_destroy(#[trigger] rebuild_seq()[i]) ==> 0
                < i,
        forall|i: int, j: int|
            0 <= i < rebuild_seq().len() && 0 <= j < rebuild_seq().len() && is_rebuild_destroy(
                #[trigger] rebuild_seq()[i],
            ) && is_rebuild_create(#[trigger] rebuild_seq()[j]) ==> i < j,
{
}

} // verus!
