//! The error taxonomy of the renderer.

use vstd::prelude::*;

verus! {

/// Why setting up or driving the renderer failed.
///
/// The first three variants report an empty candidate list during
/// negotiation; `AlignmentError` reports a malformed shader binary; the two
/// fatal variants classify failures of the device calls themselves, which the
/// unverified shell maps onto them.
#[derive(Clone, Copy, Debug, PartialEq, Eq, Structural)]
pub enum RenderError {
    /// No physical device was enumerated.
    NoSuitableDevice,
    /// No queue family supports graphics-with-present, or none supports
    /// transfer.
    NoQueueFamily,
    /// No offered surface format uses the sRGB-nonlinear color space.
    NoSupportedFormat,
    /// A shader binary's byte length is not a multiple of four.
    AlignmentError,
    /// A creation call failed during startup; nothing downstream can run.
    SetupFatal,
    /// An acquire, submit, or present call failed during the frame loop.
    FrameFatal,
}

impl RenderError {
    /// A short diagnostic name for logging.
    pub fn describe(&self) -> (r: &'static str)
        ensures
            r@ == self.describe_spec(),
    {
        match self {
            RenderError::NoSuitableDevice => "no suitable device",
            RenderError::NoQueueFamily => "no suitable queue family",
            RenderError::NoSupportedFormat => "no supported surface format",
            RenderError::AlignmentError => "shader binary is not 4-byte aligned",
            RenderError::SetupFatal => "fatal error during setup",
            RenderError::FrameFatal => "fatal error in the frame loop",
        }
    }

    /// What `describe` returns, per variant.
    pub open spec fn describe_spec(&self) -> Seq<char> {
        match self {
            RenderError::NoSuitableDevice => "no suitable device"@,
            RenderError::NoQueueFamily => "no suitable queue family"@,
            RenderError::NoSupportedFormat => "no supported surface format"@,
            RenderError::AlignmentError => "shader binary is not 4-byte aligned"@,
            RenderError::SetupFatal => "fatal error during setup"@,
            RenderError::FrameFatal => "fatal error in the frame loop"@,
        }
    }
}

} // verus!
