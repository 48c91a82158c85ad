//! Decisions of the top-level context: the packed version descriptors the
//! instance is created with, and the validation layer it enables.
//!
//! A version is packed into one 32-bit word as variant, major, minor and
//! patch fields of 3, 7, 10 and 12 bits; since every field stays below its
//! width, the packing is plain place-value arithmetic.

use vstd::prelude::*;

verus! {

/// The packed form of a version: variant, then major, minor and patch, at
/// bit offsets 29, 22, 12 and 0.
pub open spec fn spec_pack_version(variant: u32, major: u32, minor: u32, patch: u32) -> u32
    recommends
        variant < 8,
        major < 128,
        minor < 1024,
        patch < 4096,
{
    (variant * 0x2000_0000 + major * 0x40_0000 + minor * 0x1000 + patch) as u32
}

/// Packs a version descriptor for the instance-creation call.
pub fn pack_version(variant: u32, major: u32, minor: u32, patch: u32) -> (v: u32)
    requires
        variant < 8,
        major < 128,
        minor < 1024,
        patch < 4096,
    ensures
        v == spec_pack_version(variant, major, minor, patch),
{
    variant * 0x2000_0000 + major * 0x40_0000 + minor * 0x1000 + patch
}

/// The application and engine version the renderer reports: 1.0.0.
pub fn application_version() -> (v: u32)
    ensures
        v == spec_pack_version(0, 1, 0, 0),
{
    pack_version(0, 1, 0, 0)
}

/// The API version the renderer targets: 1.3.
pub fn target_api_version() -> (v: u32)
    ensures
        v == spec_pack_version(0, 1, 3, 0),
{
    pack_version(0, 1, 3, 0)
}

/// The layer enabled for diagnostics.
pub fn validation_layer_name() -> (r: &'static str)
    ensures
        r@ == "VK_LAYER_KHRONOS_validation"@,
{
    "VK_LAYER_KHRONOS_validation"
}

} // verus!
