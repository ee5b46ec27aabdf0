//! A minimal windowed rendering harness: a viewport bound to a platform
//! window is configured against a graphics device, reconfigured on resize,
//! and cleared to a fixed background color on every frame.

pub mod events;
pub mod gfx;
pub mod viewport;

pub use viewport::{Configuration, Description, Object, cfg_resized, resized};

use vstd::prelude::*;

verus! {

/// A physical pixel extent: the width and height of a window's drawable
/// area, in integer pixels.
#[derive(Clone, Copy, Debug, PartialEq, Eq, Structural)]
pub struct Extent {
    pub width: u32,
    pub height: u32,
}

impl Extent {
    /// True when both dimensions are positive: the only extents a surface
    /// can be configured with.
    pub open spec fn spec_is_drawable(self) -> bool {
        self.width > 0 && self.height > 0
    }

    /// Executable test for `spec_is_drawable`.
    pub fn is_drawable(&self) -> (r: bool)
        ensures
            r == self.spec_is_drawable(),
    {
        self.width > 0 && self.height > 0
    }
}

/// A startup failure. Every one of these is fatal to the harness: the
/// caller is expected to report the message and abort.
#[derive(Clone, Copy, Debug, PartialEq, Eq, Structural)]
pub enum ViewportError {
    /// The platform and graphics instance could not produce a surface for
    /// the window.
    SurfaceCreation,
    /// The window reports a drawable area with a zero dimension, which no
    /// surface can be configured for.
    EmptyExtent,
    /// The adapter offers no default configuration for the surface.
    NoDefaultConfiguration,
}

impl ViewportError {
    /// The diagnostic each failure carries.
    pub open spec fn spec_message(self) -> Seq<char> {
        match self {
            ViewportError::SurfaceCreation => "failed to create surface"@,
            ViewportError::EmptyExtent => "window has no drawable area"@,
            ViewportError::NoDefaultConfiguration
                => "no default surface configuration for this adapter"@,
        }
    }

    /// Renders the failure for a fatal report.
    pub fn message(&self) -> (r: &'static str)
        ensures
            r@ == self.spec_message(),
    {
        match self {
            ViewportError::SurfaceCreation => "failed to create surface",
            ViewportError::EmptyExtent => "window has no drawable area",
            ViewportError::NoDefaultConfiguration => {
                "no default surface configuration for this adapter"
            },
        }
    }
}

/// A per-frame failure: the surface could not hand out its next texture.
/// The harness treats every one of these as fatal.
#[derive(Clone, Copy, Debug, PartialEq, Eq, Structural)]
pub enum AcquireError {
    /// Waiting for the next frame timed out.
    Timeout,
    /// The surface no longer matches the window and must be reconfigured.
    Outdated,
    /// The surface was lost and must be recreated.
    Lost,
    /// No memory was left for a new frame.
    OutOfMemory,
}

impl AcquireError {
    /// The diagnostic each failure carries.
    pub open spec fn spec_message(self) -> Seq<char> {
        match self {
            AcquireError::Timeout => "timed out acquiring the next texture"@,
            AcquireError::Outdated => "surface is outdated"@,
            AcquireError::Lost => "surface was lost"@,
            AcquireError::OutOfMemory => "out of memory acquiring a texture"@,
        }
    }

    /// Renders the failure for a fatal report.
    pub fn message(&self) -> (r: &'static str)
        ensures
            r@ == self.spec_message(),
    {
        match self {
            AcquireError::Timeout => "timed out acquiring the next texture",
            AcquireError::Outdated => "surface is outdated",
            AcquireError::Lost => "surface was lost",
            AcquireError::OutOfMemory => "out of memory acquiring a texture",
        }
    }
}

} // verus!
