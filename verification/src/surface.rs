//! The GPU surface configuration.
//!
//! The device, queue and textures themselves live outside this crate; here
//! their configuration is tracked: the configured dimensions, the device's
//! maximum texture dimension, and one recreation counter per per-size
//! resource. A resize to new positive dimensions clamps them to the maximum,
//! reconfigures the surface and recreates the multisample and depth-stencil
//! targets together — never one without the other. Degenerate or unchanged
//! requests leave everything untouched.

use vstd::prelude::*;

use crate::scheduler::sat_add;

verus! {

/// The configuration state: dimensions plus how often each per-size
/// resource was created.
pub struct SurfaceView {
    pub width: int,
    pub height: int,
    pub max_dimension: int,
    pub reconfigures: int,
    pub msaa_recreations: int,
    pub depth_recreations: int,
}

/// Whether a resize request actually changes the configuration: both
/// dimensions positive and not both equal to the current ones.
pub open spec fn resize_effective(v: SurfaceView, width: int, height: int) -> bool {
    width > 0 && height > 0 && !(width == v.width && height == v.height)
}

/// A dimension clamped to the device's maximum.
pub open spec fn clamp_dim(v: int, max: int) -> int {
    if v < max {
        v
    } else {
        max
    }
}

/// What a resize request does to the configuration: an ineffective request
/// changes nothing; an effective one clamps the dimensions to the device
/// maximum, reconfigures the surface and recreates both per-size targets
/// together.
pub open spec fn resize_view(v: SurfaceView, width: int, height: int) -> SurfaceView {
    if resize_effective(v, width, height) {
        SurfaceView {
            width: clamp_dim(width, v.max_dimension),
            height: clamp_dim(height, v.max_dimension),
            max_dimension: v.max_dimension,
            reconfigures: sat_add(v.reconfigures, 1),
            msaa_recreations: sat_add(v.msaa_recreations, 1),
            depth_recreations: sat_add(v.depth_recreations, 1),
        }
    } else {
        v
    }
}

/// The configuration a fresh surface manager starts from.
pub open spec fn initial_surface_view(max_dimension: int) -> SurfaceView {
    SurfaceView {
        width: 1,
        height: 1,
        max_dimension,
        reconfigures: 0,
        msaa_recreations: 0,
        depth_recreations: 1,
    }
}

/// The surface manager: owns the configuration of the swap surface and of
/// the two per-size render targets.
pub struct SurfaceManager {
    width: u32,
    height: u32,
    max_dimension: u32,
    reconfigures: u64,
    msaa_recreations: u64,
    depth_recreations: u64,
}

impl View for SurfaceManager {
    type V = SurfaceView;

    closed spec fn view(&self) -> SurfaceView {
        SurfaceView {
            width: self.width as int,
            height: self.height as int,
            max_dimension: self.max_dimension as int,
            reconfigures: self.reconfigures as int,
            msaa_recreations: self.msaa_recreations as int,
            depth_recreations: self.depth_recreations as int,
        }
    }
}

impl SurfaceManager {
    /// A fresh configuration: a 1x1 placeholder surface, the depth target
    /// created once at startup, no multisample target yet.
    pub fn new(max_dimension: u32) -> (s: SurfaceManager)
        ensures
            s@ == initial_surface_view(max_dimension as int),
    {
        SurfaceManager {
            width: 1,
            height: 1,
            max_dimension,
            reconfigures: 0,
            msaa_recreations: 0,
            depth_recreations: 1,
        }
    }

    /// The configured dimensions.
    pub fn dimensions(&self) -> (r: (u32, u32))
        ensures
            r.0 == self@.width,
            r.1 == self@.height,
    {
        (self.width, self.height)
    }

    /// How often the multisample and the depth-stencil target were created.
    pub fn recreations(&self) -> (r: (u64, u64))
        ensures
            r.0 == self@.msaa_recreations,
            r.1 == self@.depth_recreations,
    {
        (self.msaa_recreations, self.depth_recreations)
    }

    /// Resize. A request for zero dimensions, or for the dimensions already
    /// configured, changes nothing and recreates nothing; any other positive
    /// request clamps to the device maximum, reconfigures the surface and
    /// recreates both per-size targets together. Returns the configured
    /// dimensions after the call.
    pub fn resize(&mut self, width: u32, height: u32) -> (dims: (u32, u32))
        ensures
            final(self)@ == resize_view(old(self)@, width as int, height as int),
            dims.0 == final(self)@.width,
            dims.1 == final(self)@.height,
    {
        if width > 0 && height > 0 && !(width == self.width && height == self.height) {
            self.width = if width < self.max_dimension {
                width
            } else {
                self.max_dimension
            };
            self.height = if height < self.max_dimension {
                height
            } else {
                self.max_dimension
            };
            self.reconfigures = if self.reconfigures < u64::MAX {
                self.reconfigures + 1
            } else {
                u64::MAX
            };
            self.msaa_recreations = if self.msaa_recreations < u64::MAX {
                self.msaa_recreations + 1
            } else {
                u64::MAX
            };
            self.depth_recreations = if self.depth_recreations < u64::MAX {
                self.depth_recreations + 1
            } else {
                u64::MAX
            };
        }
        (self.width, self.height)
    }
}

} // verus!
