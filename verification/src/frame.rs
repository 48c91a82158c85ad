//! Frame pacing over the swapchain's image slots.
//!
//! Every per-image collection — image views, framebuffers, command buffers,
//! and the three synchronization arrays — must share one length N, and index
//! i means the same image in each of them. The frame loop owns the one
//! mutable counter, the current frame index, advances it by exactly one
//! modulo N per frame, and plans which slot's objects each submission uses.
//! The host can thus run at most N submissions ahead of the device before
//! the fence of the reused slot blocks it.

use vstd::prelude::*;

use crate::error::RenderError;

verus! {

/// The lengths of every per-image collection the renderer created.
#[derive(Clone, Copy, Debug, PartialEq, Eq, Structural)]
pub struct ResourceCounts {
    pub image_views: usize,
    pub framebuffers: usize,
    pub command_buffers: usize,
    /// "Image available" semaphores, one per slot.
    pub image_available: usize,
    /// "Rendering finished" semaphores, one per slot.
    pub rendering_finished: usize,
    /// Submission fences, one per slot.
    pub fences: usize,
}

impl ResourceCounts {
    /// All six collections have the same length `n`.
    pub open spec fn uniform(&self, n: int) -> bool {
        &&& self.image_views == n
        &&& self.framebuffers == n
        &&& self.command_buffers == n
        &&& self.image_available == n
        &&& self.rendering_finished == n
        &&& self.fences == n
    }
}

/// Which slot's objects one frame's submission and presentation use.
#[derive(Clone, Copy, Debug, PartialEq, Eq, Structural)]
pub struct SubmissionPlan {
    /// The slot whose "image available" semaphore the submission waits on.
    pub wait_semaphore_slot: usize,
    /// The slot whose "rendering finished" semaphore it signals and the
    /// presentation waits on.
    pub signal_semaphore_slot: usize,
    /// The slot whose fence signals completion of this submission.
    pub fence_slot: usize,
    /// The command buffer to submit: the one recorded for the acquired
    /// image.
    pub command_buffer_index: usize,
    /// The image to present: the acquired one.
    pub present_image_index: usize,
}

/// The steady-state frame loop: the image count N and the persistent frame
/// index, which always stays in `[0, N)`.
#[derive(Clone, Copy, Debug, PartialEq, Eq, Structural)]
pub struct FrameLoop {
    pub image_count: usize,
    pub current_frame_index: usize,
}

impl FrameLoop {
    /// There is at least one image slot and the frame index refers to one.
    pub open spec fn wf(&self) -> bool {
        &&& 0 < self.image_count
        &&& self.current_frame_index < self.image_count
    }

    /// Builds the frame loop over the created collections.
    ///
    /// Succeeds exactly when all six per-image collections are non-empty and
    /// of one length, which becomes N; the frame index starts at slot zero.
    /// A mismatch means the setup built an inconsistent resource set, which
    /// nothing downstream could index safely.
    pub fn new(counts: &ResourceCounts) -> (r: Result<FrameLoop, RenderError>)
        ensures
            match r {
                Ok(fl) => {
                    &&& fl.wf()
                    &&& counts.uniform(fl.image_count as int)
                    &&& fl.current_frame_index == 0
                },
                Err(e) => {
                    &&& e == RenderError::SetupFatal
                    &&& !(counts.image_views > 0 && counts.uniform(counts.image_views as int))
                },
            },
    {
        let n = counts.image_views;
        if n > 0 && counts.framebuffers == n && counts.command_buffers == n
            && counts.image_available == n && counts.rendering_finished == n && counts.fences
            == n {
            Ok(FrameLoop { image_count: n, current_frame_index: 0 })
        } else {
            Err(RenderError::SetupFatal)
        }
    }

    /// Advances the frame index by exactly one modulo N and returns the new
    /// slot, the one whose objects the coming frame uses.
    pub fn advance(&mut self) -> (slot: usize)
        requires
            old(self).wf(),
        ensures
            final(self).wf(),
            final(self).image_count == old(self).image_count,
            slot == final(self).current_frame_index,
            final(self).current_frame_index == (old(self).current_frame_index + 1) % (
            old(self).image_count as int),
    {
        let next = if self.current_frame_index + 1 == self.image_count {
            0
        } else {
            self.current_frame_index + 1
        };
        proof {
            let c = self.current_frame_index as int;
            let n = self.image_count as int;
            if c + 1 < n {
                vstd::arithmetic::div_mod::lemma_small_mod((c + 1) as nat, n as nat);
            } else {
                vstd::arithmetic::div_mod::lemma_mod_self_0(n);
            }
        }
        self.current_frame_index = next;
        next
    }

    /// Plans one frame's submission: wait, signal and fence use the current
    /// slot; the command buffer and the presented image are the acquired
    /// one, which the presentation engine need not hand out in slot order.
    pub fn plan_submission(&self, acquired_image_index: usize) -> (p: SubmissionPlan)
        requires
            self.wf(),
            acquired_image_index < self.image_count,
        ensures
            p.wait_semaphore_slot == self.current_frame_index,
            p.signal_semaphore_slot == self.current_frame_index,
            p.fence_slot == self.current_frame_index,
            p.command_buffer_index == acquired_image_index,
            p.present_image_index == acquired_image_index,
            p.wait_semaphore_slot < self.image_count,
            p.signal_semaphore_slot < self.image_count,
            p.fence_slot < self.image_count,
            p.command_buffer_index < self.image_count,
            p.present_image_index < self.image_count,
    {
        SubmissionPlan {
            wait_semaphore_slot: self.current_frame_index,
            signal_semaphore_slot: self.current_frame_index,
            fence_slot: self.current_frame_index,
            command_buffer_index: acquired_image_index,
            present_image_index: acquired_image_index,
        }
    }
}

/// One step of a frame, after the image has been acquired.
#[derive(Clone, Copy, Debug, PartialEq, Eq, Structural)]
pub enum FrameStep {
    /// Block until the slot's previous submission has finished on the
    /// device; this bounds the host to at most N submissions ahead.
    WaitFence { slot: usize },
    /// Re-arm the slot's fence for this frame's submission.
    ResetFence { slot: usize },
    /// Submit the command buffer of the acquired image: wait on the slot's
    /// "image available" semaphore at the color-output stage, signal its
    /// "rendering finished" semaphore, signal its fence on completion.
    Submit {
        wait_semaphore_slot: usize,
        signal_semaphore_slot: usize,
        fence_slot: usize,
        command_buffer_index: usize,
    },
    /// Present the acquired image, waiting on the "rendering finished"
    /// semaphore the submission signals.
    Present { wait_semaphore_slot: usize, image_index: usize },
}

/// The steps of one frame on slot `slot` with acquired image `acquired`, in
/// the only safe order: fence wait, fence reset, submission, presentation.
pub open spec fn frame_steps_spec(slot: usize, acquired: usize) -> Seq<FrameStep> {
    seq![
        FrameStep::WaitFence { slot },
        FrameStep::ResetFence { slot },
        FrameStep::Submit {
            wait_semaphore_slot: slot,
            signal_semaphore_slot: slot,
            fence_slot: slot,
            command_buffer_index: acquired,
        },
        FrameStep::Present { wait_semaphore_slot: slot, image_index: acquired },
    ]
}

impl FrameLoop {
    /// Plans the rest of the frame once the image is acquired: what to do,
    /// on which slots, in which order.
    pub fn frame_steps(&self, acquired_image_index: usize) -> (steps: Vec<FrameStep>)
        requires
            self.wf(),
            acquired_image_index < self.image_count,
        ensures
            steps@ == frame_steps_spec(self.current_frame_index, acquired_image_index),
    {
        let plan = self.plan_submission(acquired_image_index);
        let mut steps: Vec<FrameStep> = Vec::new();
        steps.push(FrameStep::WaitFence { slot: plan.fence_slot });
        steps.push(FrameStep::ResetFence { slot: plan.fence_slot });
        steps.push(
            FrameStep::Submit {
                wait_semaphore_slot: plan.wait_semaphore_slot,
                signal_semaphore_slot: plan.signal_semaphore_slot,
                fence_slot: plan.fence_slot,
                command_buffer_index: plan.command_buffer_index,
            },
        );
        steps.push(
            FrameStep::Present {
                wait_semaphore_slot: plan.signal_semaphore_slot,
                image_index: plan.present_image_index,
            },
        );
        proof {
            assert(steps@ =~= frame_steps_spec(
                self.current_frame_index,
                acquired_image_index,
            ));
        }
        steps
    }
}

/// Per completed frame the frame index moves by exactly one modulo N: it
/// stays in `[0, N)`, and with more than one image it never repeats the slot
/// it just used.
pub proof fn lemma_frame_index_advances(prev: FrameLoop, next: FrameLoop)
    requires
        prev.wf(),
        next.image_count == prev.image_count,
        next.current_frame_index == (prev.current_frame_index + 1) % (prev.image_count as int),
    ensures
        next.wf(),
        prev.image_count > 1 ==> next.current_frame_index != prev.current_frame_index,
{
    let c = prev.current_frame_index as int;
    let n = prev.image_count as int;
    if c + 1 < n {
        vstd::arithmetic::div_mod::lemma_small_mod((c + 1) as nat, n as nat);
        assert((c + 1) % n == c + 1);
    } else {
        assert(c + 1 == n);
        vstd::arithmetic::div_mod::lemma_mod_self_0(n);
        assert((c + 1) % n == 0);
    }
}

} // verus!
