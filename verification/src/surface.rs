//! Plain data of the presentation surface: sizes, the capability lists that
//! the platform reports, and the configuration negotiated from them.

use vstd::prelude::*;

verus! {

/// Frames that the surface may queue ahead of the display.
pub const MAX_FRAME_LATENCY: u32 = 2;

/// A physical size in pixels, as the platform reports it.
#[derive(Clone, Copy, Debug, PartialEq, Eq)]
pub struct Size {
    pub width: u32,
    pub height: u32,
}

impl Size {
    /// Both dimensions are strictly positive: a surface can be configured
    /// to this size.
    pub open spec fn has_area(self) -> bool {
        self.width > 0 && self.height > 0
    }

    pub fn new(width: u32, height: u32) -> (size: Size)
        ensures
            size.width == width,
            size.height == height,
    {
        Size { width, height }
    }

    /// Whether a surface can be configured to this size.
    pub fn is_presentable(&self) -> (presentable: bool)
        ensures
            presentable == self.has_area(),
    {
        self.width > 0 && self.height > 0
    }
}

/// What the platform reports for an (adapter, surface) pair, each list in
/// the platform's order of preference.
#[derive(Debug)]
pub struct SurfaceCapabilities {
    pub formats: Vec<wgpu::TextureFormat>,
    pub present_modes: Vec<wgpu::PresentMode>,
    pub alpha_modes: Vec<wgpu::CompositeAlphaMode>,
}

impl SurfaceCapabilities {
    /// Every list names at least one choice, so a configuration can be
    /// derived.
    pub open spec fn is_usable(&self) -> bool {
        &&& self.formats@.len() > 0
        &&& self.present_modes@.len() > 0
        &&& self.alpha_modes@.len() > 0
    }

    /// Whether a configuration can be derived from these capabilities.
    pub fn usable(&self) -> (usable: bool)
        ensures
            usable == self.is_usable(),
    {
        self.formats.len() > 0 && self.present_modes.len() > 0 && self.alpha_modes.len() > 0
    }
}

/// The configuration applied to a surface.
#[derive(Clone, Copy, Debug, PartialEq, Eq)]
pub struct SurfaceConfig {
    pub format: wgpu::TextureFormat,
    pub width: u32,
    pub height: u32,
    pub present_mode: wgpu::PresentMode,
    pub alpha_mode: wgpu::CompositeAlphaMode,
    pub frame_latency: u32,
}

impl SurfaceConfig {
    /// The size that this configuration targets.
    pub open spec fn extent(self) -> Size {
        Size { width: self.width, height: self.height }
    }

    /// This configuration with its target size replaced by `size`.
    pub open spec fn with_extent(self, size: Size) -> SurfaceConfig {
        SurfaceConfig { width: size.width, height: size.height, ..self }
    }
}

} // verus!
