//! The render state and the frame-presentation state machine.
//!
//! `RenderState` is the single mutable object the host loop threads through
//! its events: it owns the surface configuration, the cached physical size
//! and the last pointer position. The host loop translates each OS event
//! into one call here, performs the driver work the returned action asks
//! for, and terminates on a fatal outcome.

use vstd::prelude::*;

use crate::color::{clamped_coord, ChannelRatio, ClearColor};
use crate::config::{select_format, SurfaceCaps, SurfaceConfig, DEFAULT_MAX_QUEUED_FRAMES};

verus! {

/// A pointer-state update delivered by the host loop; `Idle` is the no-op
/// variant for ticks that carry no new interaction data.
#[derive(Clone, Copy, Debug, PartialEq, Eq, Structural)]
pub enum UpdateType {
    Pos(u32, u32),
    Idle,
}

/// The driver-reported result of acquiring the next presentable image.
#[derive(Clone, Copy, Debug, PartialEq, Eq, Structural)]
pub enum AcquisitionOutcome {
    Ready,
    Timeout,
    Outdated,
    Lost,
    OutOfMemory,
}

/// What a frame attempt reports back to the host loop.
#[derive(Clone, Copy, Debug, PartialEq, Eq, Structural)]
pub enum FrameOutcome {
    /// Exactly one frame was presented.
    Rendered,
    /// The frame was skipped; the host may retry on the next redraw tick.
    SkippedTransient,
    /// Unrecoverable; the host loop must terminate.
    Fatal,
}

/// The driver work the host loop must perform for this frame attempt.
#[derive(Clone, Copy, Debug, PartialEq, Eq, Structural)]
pub enum FrameAction {
    /// Record a single render pass that clears the acquired image to the
    /// given color, submit it, and present the image.
    PresentClear(ClearColor),
    /// Reapply the given configuration to the surface; the frame is skipped.
    Reconfigure(SurfaceConfig),
    /// Nothing to perform.
    Skip,
}

/// The aggregate the host loop mutates: surface configuration, cached
/// physical size, last pointer position, and whether a fatal outcome has
/// been reported.
#[derive(Clone, Copy, Debug, PartialEq, Eq, Structural)]
pub struct RenderState {
    /// The configuration currently applied to the presentation surface.
    pub config: SurfaceConfig,
    /// Cached physical width; always equal to `config.width`.
    pub size_width: u32,
    /// Cached physical height; always equal to `config.height`.
    pub size_height: u32,
    /// Last pointer x coordinate, in surface coordinate space.
    pub pointer_x: u32,
    /// Last pointer y coordinate, in surface coordinate space.
    pub pointer_y: u32,
    /// Set once an out-of-memory acquisition has been reported; no further
    /// frame is attempted afterwards.
    pub halted: bool,
}

impl RenderState {
    /// Well-formedness: the applied configuration has positive dimensions
    /// and the cached physical size agrees with it.
    pub open spec fn wf(self) -> bool {
        &&& self.config.valid()
        &&& self.size_width == self.config.width
        &&& self.size_height == self.config.height
    }

    /// The color the next frame is cleared to: red and green are the pointer
    /// coordinates clamped into the surface and divided by its dimensions,
    /// blue is 3/10 and alpha is 1.
    pub open spec fn clear_color_spec(self) -> ClearColor {
        ClearColor {
            red: ChannelRatio {
                num: clamped_coord(self.pointer_x, self.config.width),
                den: self.config.width,
            },
            green: ChannelRatio {
                num: clamped_coord(self.pointer_y, self.config.height),
                den: self.config.height,
            },
            blue: ChannelRatio { num: 3, den: 10 },
            alpha: ChannelRatio { num: 1, den: 1 },
        }
    }

    /// Build the initial state from the window's physical size and the
    /// surface capabilities: the first sRGB-flagged format (else the first
    /// format), the first present and alpha modes, and the pointer at the
    /// origin.
    pub fn new(width: u32, height: u32, caps: &SurfaceCaps) -> (s: RenderState)
        requires
            width > 0,
            height > 0,
            caps.format_is_srgb.len() > 0,
            caps.present_mode_count > 0,
            caps.alpha_mode_count > 0,
        ensures
            s.wf(),
            s.config.width == width,
            s.config.height == height,
            s.config.format < caps.format_is_srgb.len(),
            forall|i: int| 0 <= i < s.config.format ==> !caps.format_is_srgb[i],
            caps.format_is_srgb[s.config.format as int] || (s.config.format == 0
                && forall|i: int|
                0 <= i < caps.format_is_srgb.len() ==> !caps.format_is_srgb[i]),
            s.config.present_mode == 0,
            s.config.alpha_mode == 0,
            s.config.max_queued_frames == DEFAULT_MAX_QUEUED_FRAMES,
            s.pointer_x == 0,
            s.pointer_y == 0,
            !s.halted,
    {
        let format = select_format(&caps.format_is_srgb);
        RenderState {
            config: SurfaceConfig {
                format,
                width,
                height,
                present_mode: 0,
                alpha_mode: 0,
                max_queued_frames: DEFAULT_MAX_QUEUED_FRAMES,
            },
            size_width: width,
            size_height: height,
            pointer_x: 0,
            pointer_y: 0,
            halted: false,
        }
    }

    /// The configuration dimensions currently applied, `(width, height)`.
    pub fn config_dimensions(&self) -> (d: (u32, u32))
        ensures
            d == (self.config.width, self.config.height),
    {
        (self.config.width, self.config.height)
    }

    /// Resize handler. With positive dimensions it updates the configuration
    /// and the cached size and reports that the configuration must be
    /// reapplied; a zero dimension (a minimized or degenerate window) is
    /// silently skipped and changes nothing. Idempotent: repeating a call
    /// with identical dimensions leaves the same state.
    pub fn resize(&mut self, new_width: u32, new_height: u32) -> (applied: bool)
        requires
            old(self).wf(),
        ensures
            final(self).wf(),
            applied <==> (new_width > 0 && new_height > 0),
            applied ==> final(self).config == (SurfaceConfig {
                width: new_width,
                height: new_height,
                ..old(self).config
            }) && final(self).size_width == new_width && final(self).size_height == new_height,
            !applied ==> *final(self) == *old(self),
            final(self).pointer_x == old(self).pointer_x,
            final(self).pointer_y == old(self).pointer_y,
            final(self).halted == old(self).halted,
    {
        if new_width > 0 && new_height > 0 {
            self.size_width = new_width;
            self.size_height = new_height;
            self.config.width = new_width;
            self.config.height = new_height;
            true
        } else {
            false
        }
    }

    /// Store the latest pointer position; nothing else changes.
    pub fn update_pointer(&mut self, x: u32, y: u32)
        ensures
            *final(self) == (RenderState { pointer_x: x, pointer_y: y, ..*old(self) }),
    {
        self.pointer_x = x;
        self.pointer_y = y;
    }

    /// Apply one interaction update: a position is stored, an idle tick
    /// changes nothing.
    pub fn update(&mut self, update_type: UpdateType)
        ensures
            update_type matches UpdateType::Pos(x, y) ==> *final(self) == (RenderState {
                pointer_x: x,
                pointer_y: y,
                ..*old(self)
            }),
            update_type is Idle ==> *final(self) == *old(self),
    {
        match update_type {
            UpdateType::Pos(x, y) => self.update_pointer(x, y),
            UpdateType::Idle => {},
        }
    }

    /// The exact clear color for the current pointer position and surface
    /// dimensions.
    pub fn clear_color(&self) -> (c: ClearColor)
        requires
            self.wf(),
        ensures
            c == self.clear_color_spec(),
    {
        let red_num = if self.pointer_x < self.config.width {
            self.pointer_x
        } else {
            self.config.width - 1
        };
        let green_num = if self.pointer_y < self.config.height {
            self.pointer_y
        } else {
            self.config.height - 1
        };
        ClearColor {
            red: ChannelRatio { num: red_num, den: self.config.width },
            green: ChannelRatio { num: green_num, den: self.config.height },
            blue: ChannelRatio { num: 3, den: 10 },
            alpha: ChannelRatio { num: 1, den: 1 },
        }
    }

    /// One frame attempt, decided by the acquisition outcome the driver
    /// reported:
    /// - `Ready`: the frame is presented, cleared to the pointer-derived
    ///   color; the state does not change.
    /// - `Timeout` / `Outdated`: transient; the frame is skipped and the
    ///   state does not change.
    /// - `Lost`: the resize handler runs with the currently cached size, so
    ///   the host must reapply the current configuration; the frame is
    ///   skipped.
    /// - `OutOfMemory`: fatal; the state is halted and no further frame may
    ///   be attempted.
    pub fn render_frame(&mut self, acquired: AcquisitionOutcome) -> (r: (
        FrameOutcome,
        FrameAction,
    ))
        requires
            old(self).wf(),
            !old(self).halted,
        ensures
            final(self).wf(),
            acquired is Ready ==> *final(self) == *old(self) && r.0 is Rendered && r.1
                == FrameAction::PresentClear(old(self).clear_color_spec()),
            acquired is Timeout || acquired is Outdated ==> *final(self) == *old(self) && r.0
                is SkippedTransient && r.1 is Skip,
            acquired is Lost ==> *final(self) == *old(self) && r.0 is SkippedTransient && r.1
                == FrameAction::Reconfigure(old(self).config),
            acquired is OutOfMemory ==> *final(self) == (RenderState {
                halted: true,
                ..*old(self)
            }) && r.0 is Fatal && r.1 is Skip,
            r.0 is Fatal <==> acquired is OutOfMemory,
            final(self).halted <==> acquired is OutOfMemory,
    {
        match acquired {
            AcquisitionOutcome::Ready => {
                let c = self.clear_color();
                (FrameOutcome::Rendered, FrameAction::PresentClear(c))
            },
            AcquisitionOutcome::Timeout => (FrameOutcome::SkippedTransient, FrameAction::Skip),
            AcquisitionOutcome::Outdated => (FrameOutcome::SkippedTransient, FrameAction::Skip),
            AcquisitionOutcome::Lost => {
                let w = self.size_width;
                let h = self.size_height;
                self.resize(w, h);
                let cfg = self.config;
                (FrameOutcome::SkippedTransient, FrameAction::Reconfigure(cfg))
            },
            AcquisitionOutcome::OutOfMemory => {
                self.halted = true;
                (FrameOutcome::Fatal, FrameAction::Skip)
            },
        }
    }
}

} // verus!
