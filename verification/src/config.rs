//! The surface configuration and the capability-driven choices made when it
//! is first built.

use vstd::prelude::*;

verus! {

/// How many frames the presentation engine may queue ahead.
pub const DEFAULT_MAX_QUEUED_FRAMES: u32 = 2;

/// The mutable descriptor applied to the presentation surface.
///
/// Format, present mode and alpha mode are indices into the driver-reported
/// capability lists, in the order the driver gave them; the host glue maps
/// them back to the driver's own values when it applies the configuration.
#[derive(Clone, Copy, Debug, PartialEq, Eq, Structural)]
pub struct SurfaceConfig {
    /// Index into the driver's supported-format list.
    pub format: usize,
    /// Width in physical pixels; zero is invalid and is never applied.
    pub width: u32,
    /// Height in physical pixels; zero is invalid and is never applied.
    pub height: u32,
    /// Index into the driver's supported-present-mode list.
    pub present_mode: usize,
    /// Index into the driver's supported-alpha-mode list.
    pub alpha_mode: usize,
    /// Maximum number of queued frames.
    pub max_queued_frames: u32,
}

impl SurfaceConfig {
    /// A configuration may be applied to the surface only when both
    /// dimensions are positive.
    pub open spec fn valid(self) -> bool {
        self.width > 0 && self.height > 0
    }
}

/// What the driver reports the surface supports, reduced to what the
/// configuration choices read: one sRGB flag per supported format, and how
/// many present and alpha modes there are.
pub struct SurfaceCaps {
    /// For each supported pixel format, in driver priority order, whether it
    /// is a standard gamma-correct (sRGB) color format.
    pub format_is_srgb: Vec<bool>,
    /// Number of supported present modes.
    pub present_mode_count: usize,
    /// Number of supported alpha modes.
    pub alpha_mode_count: usize,
}

/// Select the index of the first format flagged as sRGB, falling back to the
/// first supported format when none is so flagged.
pub fn select_format(format_is_srgb: &Vec<bool>) -> (r: usize)
    requires
        format_is_srgb.len() > 0,
    ensures
        r < format_is_srgb.len(),
        forall|i: int| 0 <= i < r ==> !format_is_srgb[i],
        format_is_srgb[r as int] || (r == 0 && forall|i: int|
            0 <= i < format_is_srgb.len() ==> !format_is_srgb[i]),
{
    let n = format_is_srgb.len();
    let mut i: usize = 0;
    while i < n
        invariant
            i <= n,
            n == format_is_srgb.len(),
            forall|j: int| 0 <= j < i ==> !format_is_srgb[j],
        decreases n - i,
    {
        if format_is_srgb[i] {
            return i;
        }
        i += 1;
    }
    0
}

} // verus!
