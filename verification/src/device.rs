//! Physical-device and queue-family selection.
//!
//! The renderer scores the enumerated devices by their type, picks the first
//! best one, then scans its queue families once for a graphics family that
//! can present to the surface and for a transfer family, preferring a
//! dedicated one. The device-creation request lists each selected family
//! once, even when the two coincide.

use vstd::prelude::*;

use crate::error::RenderError;

verus! {

/// The type a physical device reports, in the renderer's coarse classes.
#[derive(Clone, Copy, Debug, PartialEq, Eq, Structural)]
pub enum DeviceClass {
    DiscreteGpu,
    IntegratedGpu,
    VirtualGpu,
    /// CPU implementations and everything else.
    Other,
}

/// The preference order over device classes.
pub open spec fn device_rank(d: DeviceClass) -> int {
    match d {
        DeviceClass::DiscreteGpu => 3,
        DeviceClass::IntegratedGpu => 2,
        DeviceClass::VirtualGpu => 1,
        DeviceClass::Other => 0,
    }
}

/// An exec twin of `device_rank`.
fn rank_of_device(d: DeviceClass) -> (r: u32)
    ensures
        r == device_rank(d),
{
    match d {
        DeviceClass::DiscreteGpu => 3,
        DeviceClass::IntegratedGpu => 2,
        DeviceClass::VirtualGpu => 1,
        DeviceClass::Other => 0,
    }
}

/// Picks the physical device: the first one of maximal rank, by enumeration
/// order. Fails with `NoSuitableDevice` exactly when nothing was enumerated.
pub fn pick_physical_device(classes: &Vec<DeviceClass>) -> (r: Result<usize, RenderError>)
    ensures
        match r {
            Ok(i) => {
                &&& i < classes@.len()
                &&& forall|j: int|
                    0 <= j < classes@.len() ==> device_rank(#[trigger] classes@[j]) <= device_rank(
                        classes@[i as int],
                    )
                &&& forall|j: int|
                    0 <= j < i ==> device_rank(#[trigger] classes@[j]) < device_rank(
                        classes@[i as int],
                    )
            },
            Err(e) => {
                &&& e == RenderError::NoSuitableDevice
                &&& classes@.len() == 0
            },
        },
{
    if classes.len() == 0 {
        return Err(RenderError::NoSuitableDevice);
    }
    let mut best: usize = 0;
    let mut best_rank: u32 = rank_of_device(classes[0]);
    let mut i: usize = 1;
    while i < classes.len()
        invariant
            0 < classes@.len(),
            1 <= i <= classes@.len(),
            best < i,
            best_rank == device_rank(classes@[best as int]),
            forall|j: int|
                0 <= j < i ==> device_rank(#[trigger] classes@[j]) <= device_rank(
                    classes@[best as int],
                ),
            forall|j: int|
                0 <= j < best ==> device_rank(#[trigger] classes@[j]) < device_rank(
                    classes@[best as int],
                ),
        decreases classes@.len() - i,
    {
        let rank = rank_of_device(classes[i]);
        if rank > best_rank {
            best = i;
            best_rank = rank;
        }
        i = i + 1;
    }
    Ok(best)
}

/// What one queue family advertises, as far as selection reads it. Whether
/// the family can present is a per-surface fact and comes from the surface
/// query for this device and family.
#[derive(Clone, Copy, Debug, PartialEq, Eq, Structural)]
pub struct QueueFamily {
    pub queue_count: u32,
    pub graphics: bool,
    pub transfer: bool,
    pub present_support: bool,
}

/// A family that can take graphics work and present it to the surface.
pub open spec fn graphics_candidate(q: QueueFamily) -> bool {
    &&& q.queue_count > 0
    &&& q.graphics
    &&& q.present_support
}

/// A family that can take transfer work.
pub open spec fn transfer_capable(q: QueueFamily) -> bool {
    &&& q.queue_count > 0
    &&& q.transfer
}

/// A transfer-capable family that does not also take graphics work.
pub open spec fn dedicated_transfer(q: QueueFamily) -> bool {
    &&& transfer_capable(q)
    &&& !q.graphics
}

/// The two family indices the logical device is created over.
#[derive(Clone, Copy, Debug, PartialEq, Eq, Structural)]
pub struct QueueSelection {
    pub graphics_family: usize,
    pub transfer_family: usize,
}

/// Scans the families once and selects a graphics family and a transfer
/// family.
///
/// The graphics family is the last candidate in scan order. The transfer
/// family prefers dedicated families: it is the last dedicated one when any
/// exists, else the first transfer-capable one. Fails with `NoQueueFamily`
/// exactly when either search comes up empty.
pub fn select_queue_families(families: &Vec<QueueFamily>) -> (r: Result<
    QueueSelection,
    RenderError,
>)
    ensures
        match r {
            Ok(s) => {
                &&& s.graphics_family < families@.len()
                &&& graphics_candidate(families@[s.graphics_family as int])
                &&& forall|j: int|
                    s.graphics_family < j < families@.len() ==> !graphics_candidate(
                        #[trigger] families@[j],
                    )
                &&& s.transfer_family < families@.len()
                &&& transfer_capable(families@[s.transfer_family as int])
                &&& if exists|j: int|
                    0 <= j < families@.len() && dedicated_transfer(#[trigger] families@[j]) {
                    &&& dedicated_transfer(families@[s.transfer_family as int])
                    &&& forall|j: int|
                        s.transfer_family < j < families@.len() ==> !dedicated_transfer(
                            #[trigger] families@[j],
                        )
                } else {
                    forall|j: int|
                        0 <= j < s.transfer_family ==> !transfer_capable(#[trigger] families@[j])
                }
            },
            Err(e) => {
                &&& e == RenderError::NoQueueFamily
                &&& {
                    ||| forall|j: int|
                        0 <= j < families@.len() ==> !graphics_candidate(#[trigger] families@[j])
                    ||| forall|j: int|
                        0 <= j < families@.len() ==> !transfer_capable(#[trigger] families@[j])
                }
            },
        },
{
    let mut found_graphics: Option<usize> = None;
    let mut found_transfer: Option<usize> = None;
    let mut i: usize = 0;
    while i < families.len()
        invariant
            i <= families@.len(),
            match found_graphics {
                Option::None => forall|j: int|
                    0 <= j < i ==> !graphics_candidate(#[trigger] families@[j]),
                Option::Some(g) => {
                    &&& g < i
                    &&& graphics_candidate(families@[g as int])
                    &&& forall|j: int|
                        g < j < i ==> !graphics_candidate(#[trigger] families@[j])
                },
            },
            match found_transfer {
                Option::None => forall|j: int|
                    0 <= j < i ==> !transfer_capable(#[trigger] families@[j]),
                Option::Some(t) => {
                    &&& t < i
                    &&& transfer_capable(families@[t as int])
                    &&& if exists|j: int| 0 <= j < i && dedicated_transfer(#[trigger] families@[j]) {
                        &&& dedicated_transfer(families@[t as int])
                        &&& forall|j: int|
                            t < j < i ==> !dedicated_transfer(#[trigger] families@[j])
                    } else {
                        forall|j: int| 0 <= j < t ==> !transfer_capable(#[trigger] families@[j])
                    }
                },
            },
        decreases families@.len() - i,
    {
        let fam = families[i];
        if fam.queue_count > 0 && fam.graphics && fam.present_support {
            found_graphics = Some(i);
        }
        if fam.queue_count > 0 && fam.transfer && (found_transfer.is_none() || !fam.graphics) {
            found_transfer = Some(i);
        }
        i = i + 1;
    }
    match (found_graphics, found_transfer) {
        (Some(g), Some(t)) => Ok(QueueSelection { graphics_family: g, transfer_family: t }),
        _ => Err(RenderError::NoQueueFamily),
    }
}

/// The family indices requested at device creation: each selected family
/// once — when graphics and transfer coincide, the request names the family
/// a single time, never twice.
pub open spec fn spec_queue_requests(graphics_family: u32, transfer_family: u32) -> Seq<u32> {
    if graphics_family == transfer_family {
        seq![graphics_family]
    } else {
        seq![graphics_family, transfer_family]
    }
}

/// Builds the deduplicated list of queue-family indices to request.
pub fn queue_create_requests(graphics_family: u32, transfer_family: u32) -> (r: Vec<u32>)
    ensures
        r@ == spec_queue_requests(graphics_family, transfer_family),
        r@.contains(graphics_family),
        r@.contains(transfer_family),
        forall|a: int, b: int| 0 <= a < b < r@.len() ==> r@[a] != r@[b],
{
    let mut r: Vec<u32> = Vec::new();
    r.push(graphics_family);
    if transfer_family != graphics_family {
        r.push(transfer_family);
    }
    proof {
        assert(r@ =~= spec_queue_requests(graphics_family, transfer_family));
        assert(r@[0] == graphics_family);
        if graphics_family != transfer_family {
            assert(r@[1] == transfer_family);
        }
    }
    r
}

} // verus!
