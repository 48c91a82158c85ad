//! Swapchain negotiation.
//!
//! Given what the surface reports for the selected device — its
//! capabilities, the present modes it offers and the formats it offers —
//! these functions decide every parameter of the presentation chain: present
//! mode, surface format, image count and extent. They are pure decisions;
//! the device calls that act on them live outside the library.

use vstd::prelude::*;

use crate::error::RenderError;

verus! {

/// The width that marks a surface's current extent as undefined.
pub const EXTENT_UNDEFINED: u32 = 0xffff_ffff;

/// A pixel extent in width and height.
#[derive(Clone, Copy, Debug, PartialEq, Eq, Structural)]
pub struct Extent2d {
    pub width: u32,
    pub height: u32,
}

/// What the surface reports about itself for one device.
#[derive(Clone, Copy, Debug, PartialEq, Eq, Structural)]
pub struct SurfaceCapabilities {
    pub min_image_count: u32,
    /// Zero means the surface puts no upper bound on the image count.
    pub max_image_count: u32,
    /// A width of `EXTENT_UNDEFINED` means the surface leaves the extent to
    /// the swapchain; the drawable size decides it then.
    pub current_extent: Extent2d,
    pub min_image_extent: Extent2d,
    pub max_image_extent: Extent2d,
}

impl SurfaceCapabilities {
    /// Capabilities as a correct surface reports them: a bounded image count
    /// is at least the minimum, and the extent bounds are ordered.
    pub open spec fn wf(&self) -> bool {
        &&& (self.max_image_count == 0 || self.min_image_count <= self.max_image_count)
        &&& self.min_image_extent.width <= self.max_image_extent.width
        &&& self.min_image_extent.height <= self.max_image_extent.height
    }
}

/// How a presentation engine paces the handover of finished images.
#[derive(Clone, Copy, Debug, PartialEq, Eq, Structural)]
pub enum PresentMode {
    Mailbox,
    Immediate,
    Fifo,
    FifoRelaxed,
    /// Any mode the renderer has no preference for.
    Other,
}

/// The preference order over present modes.
pub open spec fn present_mode_rank(m: PresentMode) -> int {
    match m {
        PresentMode::Mailbox => 3,
        PresentMode::Immediate => 2,
        PresentMode::Fifo => 1,
        PresentMode::FifoRelaxed => 0,
        PresentMode::Other => 0,
    }
}

/// The present mode the renderer selects from what is offered: the most
/// preferred of the four known modes, and fifo — which every surface
/// supports — when none of them is offered.
pub open spec fn spec_choose_present_mode(modes: Seq<PresentMode>) -> PresentMode {
    if modes.contains(PresentMode::Mailbox) {
        PresentMode::Mailbox
    } else if modes.contains(PresentMode::Immediate) {
        PresentMode::Immediate
    } else if modes.contains(PresentMode::Fifo) {
        PresentMode::Fifo
    } else if modes.contains(PresentMode::FifoRelaxed) {
        PresentMode::FifoRelaxed
    } else {
        PresentMode::Fifo
    }
}

/// Whether `m` occurs in the offered set.
fn contains_mode(modes: &Vec<PresentMode>, m: PresentMode) -> (b: bool)
    ensures
        b == modes@.contains(m),
{
    let mut i: usize = 0;
    while i < modes.len()
        invariant
            i <= modes@.len(),
            forall|j: int| 0 <= j < i ==> modes@[j] != m,
        decreases modes@.len() - i,
    {
        if modes[i] == m {
            return true;
        }
        i = i + 1;
    }
    false
}

/// Picks the present mode for the offered set.
pub fn choose_present_mode(modes: &Vec<PresentMode>) -> (r: PresentMode)
    ensures
        r == spec_choose_present_mode(modes@),
{
    let has_mailbox = contains_mode(modes, PresentMode::Mailbox);
    let has_immediate = contains_mode(modes, PresentMode::Immediate);
    let has_fifo = contains_mode(modes, PresentMode::Fifo);
    let has_fifo_relaxed = contains_mode(modes, PresentMode::FifoRelaxed);
    if has_mailbox {
        PresentMode::Mailbox
    } else if has_immediate {
        PresentMode::Immediate
    } else if has_fifo {
        PresentMode::Fifo
    } else if has_fifo_relaxed {
        PresentMode::FifoRelaxed
    } else {
        PresentMode::Fifo
    }
}

/// The selected present mode is at least as preferred as every known mode on
/// offer: nothing offered outranks it.
pub proof fn lemma_present_mode_is_most_preferred(modes: Seq<PresentMode>, m: PresentMode)
    requires
        modes.contains(m),
    ensures
        present_mode_rank(m) <= present_mode_rank(spec_choose_present_mode(modes)),
{
}

/// The pixel formats the renderer ranks; everything else is `Other`.
#[derive(Clone, Copy, Debug, PartialEq, Eq, Structural)]
pub enum PixelFormat {
    B8g8r8a8Srgb,
    R8g8b8a8Srgb,
    B8g8r8a8Unorm,
    R8g8b8a8Unorm,
    Other,
}

/// A color space; only sRGB-nonlinear is acceptable for presentation.
#[derive(Clone, Copy, Debug, PartialEq, Eq, Structural)]
pub enum ColorSpace {
    SrgbNonlinear,
    Other,
}

/// One format/color-space pair the surface offers.
#[derive(Clone, Copy, Debug, PartialEq, Eq, Structural)]
pub struct SurfaceFormat {
    pub format: PixelFormat,
    pub color_space: ColorSpace,
}

/// The preference order over pixel formats: 8-bit sRGB first, 8-bit UNORM
/// second, anything else last.
pub open spec fn pixel_format_rank(f: PixelFormat) -> int {
    match f {
        PixelFormat::B8g8r8a8Srgb => 2,
        PixelFormat::R8g8b8a8Srgb => 2,
        PixelFormat::B8g8r8a8Unorm => 1,
        PixelFormat::R8g8b8a8Unorm => 1,
        PixelFormat::Other => 0,
    }
}

/// A format is a candidate exactly when its color space is sRGB-nonlinear.
pub open spec fn format_candidate(f: SurfaceFormat) -> bool {
    f.color_space == ColorSpace::SrgbNonlinear
}

/// `f` is the format selected from `formats`: the first candidate of maximal
/// rank.
pub open spec fn chosen_format(formats: Seq<SurfaceFormat>, f: SurfaceFormat) -> bool {
    exists|i: int|
        {
            &&& 0 <= i < formats.len()
            &&& formats[i] == f
            &&& format_candidate(f)
            &&& forall|j: int|
                0 <= j < formats.len() && format_candidate(#[trigger] formats[j])
                    ==> pixel_format_rank(formats[j].format) <= pixel_format_rank(f.format)
            &&& forall|j: int|
                0 <= j < i && format_candidate(#[trigger] formats[j]) ==> pixel_format_rank(
                    formats[j].format,
                ) < pixel_format_rank(f.format)
        }
}

/// An exec twin of `pixel_format_rank`.
fn rank_of_format(f: PixelFormat) -> (r: u32)
    ensures
        r == pixel_format_rank(f),
{
    match f {
        PixelFormat::B8g8r8a8Srgb => 2,
        PixelFormat::R8g8b8a8Srgb => 2,
        PixelFormat::B8g8r8a8Unorm => 1,
        PixelFormat::R8g8b8a8Unorm => 1,
        PixelFormat::Other => 0,
    }
}

/// Picks the surface format: keeps only sRGB-nonlinear entries, ranks their
/// pixel formats, and takes the first of maximal rank. Fails with
/// `NoSupportedFormat` exactly when no entry uses the sRGB-nonlinear space —
/// it never falls back to another color space.
pub fn choose_surface_format(formats: &Vec<SurfaceFormat>) -> (r: Result<
    SurfaceFormat,
    RenderError,
>)
    ensures
        match r {
            Ok(f) => chosen_format(formats@, f),
            Err(e) => {
                &&& e == RenderError::NoSupportedFormat
                &&& forall|j: int|
                    0 <= j < formats@.len() ==> !format_candidate(#[trigger] formats@[j])
            },
        },
{
    let mut best: Option<SurfaceFormat> = None;
    let mut best_rank: u32 = 0;
    let ghost mut best_at: int = 0;
    let mut i: usize = 0;
    while i < formats.len()
        invariant
            i <= formats@.len(),
            match best {
                Option::None => forall|j: int|
                    0 <= j < i ==> !format_candidate(#[trigger] formats@[j]),
                Option::Some(b) => {
                    &&& 0 <= best_at < i
                    &&& formats@[best_at] == b
                    &&& format_candidate(b)
                    &&& best_rank == pixel_format_rank(b.format)
                    &&& forall|j: int|
                        0 <= j < i && format_candidate(#[trigger] formats@[j])
                            ==> pixel_format_rank(formats@[j].format) <= pixel_format_rank(b.format)
                    &&& forall|j: int|
                        0 <= j < best_at && format_candidate(#[trigger] formats@[j])
                            ==> pixel_format_rank(formats@[j].format) < pixel_format_rank(b.format)
                },
            },
        decreases formats@.len() - i,
    {
        let entry = formats[i];
        if matches!(entry.color_space, ColorSpace::SrgbNonlinear) {
            let rank = rank_of_format(entry.format);
            let take = match best {
                Option::None => true,
                Option::Some(_) => rank > best_rank,
            };
            if take {
                best = Some(entry);
                best_rank = rank;
                proof {
                    best_at = i as int;
                }
            }
        }
        i = i + 1;
    }
    match best {
        Option::Some(f) => Ok(f),
        Option::None => Err(RenderError::NoSupportedFormat),
    }
}

/// Whenever any sRGB-nonlinear entry is offered, format selection succeeds
/// and the selected entry's color space is sRGB-nonlinear.
pub proof fn lemma_format_keeps_srgb_space(formats: Seq<SurfaceFormat>, f: SurfaceFormat)
    requires
        chosen_format(formats, f),
    ensures
        f.color_space == ColorSpace::SrgbNonlinear,
        formats.contains(f),
{
    let i = choose|i: int|
        {
            &&& 0 <= i < formats.len()
            &&& formats[i] == f
            &&& format_candidate(f)
            &&& forall|j: int|
                0 <= j < formats.len() && format_candidate(#[trigger] formats[j])
                    ==> pixel_format_rank(formats[j].format) <= pixel_format_rank(f.format)
            &&& forall|j: int|
                0 <= j < i && format_candidate(#[trigger] formats[j]) ==> pixel_format_rank(
                    formats[j].format,
                ) < pixel_format_rank(f.format)
        };
    assert(formats[i] == f);
}

/// The larger of two counts.
pub open spec fn count_max(a: u32, b: u32) -> u32 {
    if a >= b {
        a
    } else {
        b
    }
}

/// The smaller of two counts.
pub open spec fn count_min(a: u32, b: u32) -> u32 {
    if a <= b {
        a
    } else {
        b
    }
}

/// The image count the renderer requests: three, raised to the surface's
/// minimum, and capped at its maximum unless that maximum is zero, which
/// means unbounded.
pub open spec fn spec_image_count(min_image_count: u32, max_image_count: u32) -> u32 {
    if max_image_count == 0 {
        count_max(3, min_image_count)
    } else {
        count_min(count_max(3, min_image_count), max_image_count)
    }
}

/// Picks the swapchain image count from the surface's bounds.
///
/// The result never undercuts the surface's minimum, never exceeds a nonzero
/// maximum, and is at least three whenever the bounds allow three.
pub fn choose_image_count(min_image_count: u32, max_image_count: u32) -> (count: u32)
    requires
        max_image_count == 0 || min_image_count <= max_image_count,
    ensures
        count == spec_image_count(min_image_count, max_image_count),
        min_image_count <= count,
        max_image_count != 0 ==> count <= max_image_count,
        max_image_count == 0 || max_image_count >= 3 ==> count >= 3,
{
    let floor = if min_image_count > 3 {
        min_image_count
    } else {
        3
    };
    if max_image_count == 0 {
        floor
    } else if floor > max_image_count {
        max_image_count
    } else {
        floor
    }
}

/// `x` clamped into `[lo, hi]`.
pub open spec fn spec_clamp(x: u32, lo: u32, hi: u32) -> u32
    recommends
        lo <= hi,
{
    if x < lo {
        lo
    } else if x > hi {
        hi
    } else {
        x
    }
}

/// The extent the swapchain is created with: the surface's current extent
/// when it is defined, else the drawable's pixel size clamped component-wise
/// into the surface's extent bounds.
pub open spec fn spec_choose_extent(
    caps: SurfaceCapabilities,
    drawable_width: u32,
    drawable_height: u32,
) -> Extent2d {
    if caps.current_extent.width != EXTENT_UNDEFINED {
        caps.current_extent
    } else {
        Extent2d {
            width: spec_clamp(
                drawable_width,
                caps.min_image_extent.width,
                caps.max_image_extent.width,
            ),
            height: spec_clamp(
                drawable_height,
                caps.min_image_extent.height,
                caps.max_image_extent.height,
            ),
        }
    }
}

/// An exec clamp of `x` into `[lo, hi]`.
fn clamp_u32(x: u32, lo: u32, hi: u32) -> (r: u32)
    requires
        lo <= hi,
    ensures
        r == spec_clamp(x, lo, hi),
{
    if x < lo {
        lo
    } else if x > hi {
        hi
    } else {
        x
    }
}

/// Picks the swapchain extent from the capabilities and the drawable size.
pub fn choose_extent(caps: &SurfaceCapabilities, drawable_width: u32, drawable_height: u32) -> (e:
    Extent2d)
    requires
        caps.wf(),
    ensures
        e == spec_choose_extent(*caps, drawable_width, drawable_height),
{
    if caps.current_extent.width != EXTENT_UNDEFINED {
        caps.current_extent
    } else {
        Extent2d {
            width: clamp_u32(
                drawable_width,
                caps.min_image_extent.width,
                caps.max_image_extent.width,
            ),
            height: clamp_u32(
                drawable_height,
                caps.min_image_extent.height,
                caps.max_image_extent.height,
            ),
        }
    }
}

/// Every parameter of the presentation chain that negotiation decides.
#[derive(Clone, Copy, Debug, PartialEq, Eq, Structural)]
pub struct SwapchainConfig {
    pub present_mode: PresentMode,
    pub format: SurfaceFormat,
    pub image_count: u32,
    pub extent: Extent2d,
}

/// Negotiates the whole swapchain configuration against the surface.
///
/// Succeeds exactly when some offered format uses the sRGB-nonlinear color
/// space; every field of the result is then the one the dedicated choosers
/// pick.
pub fn negotiate(
    caps: &SurfaceCapabilities,
    modes: &Vec<PresentMode>,
    formats: &Vec<SurfaceFormat>,
    drawable_width: u32,
    drawable_height: u32,
) -> (r: Result<SwapchainConfig, RenderError>)
    requires
        caps.wf(),
    ensures
        match r {
            Ok(c) => {
                &&& c.present_mode == spec_choose_present_mode(modes@)
                &&& chosen_format(formats@, c.format)
                &&& c.image_count == spec_image_count(caps.min_image_count, caps.max_image_count)
                &&& c.extent == spec_choose_extent(*caps, drawable_width, drawable_height)
            },
            Err(e) => {
                &&& e == RenderError::NoSupportedFormat
                &&& forall|j: int|
                    0 <= j < formats@.len() ==> !format_candidate(#[trigger] formats@[j])
            },
        },
{
    let format = match choose_surface_format(formats) {
        Ok(f) => f,
        Err(e) => {
            return Err(e);
        },
    };
    let present_mode = choose_present_mode(modes);
    let image_count = choose_image_count(caps.min_image_count, caps.max_image_count);
    let extent = choose_extent(caps, drawable_width, drawable_height);
    Ok(SwapchainConfig { present_mode, format, image_count, extent })
}

} // verus!
