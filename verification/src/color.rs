//! The clear color, kept as exact integer ratios.
//!
//! The driver takes each channel as a real number in `[0, 1]`; the core
//! stays in integer arithmetic and hands the host glue an exact ratio
//! `num / den` per channel, which the glue divides out just before the
//! render pass is recorded.

use vstd::prelude::*;

verus! {

/// One color channel as the exact ratio `num / den`.
#[derive(Clone, Copy, Debug, PartialEq, Eq, Structural)]
pub struct ChannelRatio {
    pub num: u32,
    pub den: u32,
}

/// The color a frame is cleared to: red and green visualize the normalized
/// last pointer position, blue and alpha are constant.
#[derive(Clone, Copy, Debug, PartialEq, Eq, Structural)]
pub struct ClearColor {
    pub red: ChannelRatio,
    pub green: ChannelRatio,
    pub blue: ChannelRatio,
    pub alpha: ChannelRatio,
}

/// A pointer coordinate clamped into `[0, dim)` before it is divided by the
/// surface dimension.
pub open spec fn clamped_coord(p: u32, dim: u32) -> u32
    recommends
        dim > 0,
{
    if p < dim {
        p
    } else {
        (dim - 1) as u32
    }
}

} // verus!
