//! The presentation surface: its configuration, and what to do when the
//! next presentable texture cannot be acquired.

use vstd::prelude::*;

verus! {

/// Why the surface handed out no texture for the frame.
#[derive(Debug, Clone, Copy, PartialEq, Eq, Structural)]
pub enum SurfaceError {
    /// The texture did not become available in time.
    Timeout,
    /// The surface changed underneath the swap chain.
    Outdated,
    /// The swap chain is gone and has to be built again.
    Lost,
    /// The device has no memory left for a new frame.
    OutOfMemory,
}

/// The failures the renderer distinguishes.
#[derive(Debug, Clone, Copy, PartialEq, Eq, Structural)]
pub enum RenderError {
    /// The surface was lost; it is configured again and the frame skipped.
    SurfaceLost,
    /// The surface was outdated or timed out; the frame is skipped.
    SurfaceOutdatedOrTimeout,
    /// The device ran out of memory; the caller has to terminate.
    SurfaceOutOfMemory,
    /// No usable adapter, device or surface format was found at startup.
    DeviceInit,
    /// A pipeline, shader or texture could not be built.
    ResourceConstruction,
}

/// What follows a failure.
#[derive(Debug, Clone, Copy, PartialEq, Eq, Structural)]
pub enum Recovery {
    /// Configure the surface again at its current size and skip the frame.
    Reconfigure,
    /// Skip the frame and try again at the next tick.
    Skip,
    /// Give up: the failure is handed to the caller.
    Fatal,
}

impl SurfaceError {
    /// The class of failure an acquisition error falls under.
    pub open spec fn spec_classify(self) -> RenderError {
        match self {
            SurfaceError::Lost => RenderError::SurfaceLost,
            SurfaceError::Outdated => RenderError::SurfaceOutdatedOrTimeout,
            SurfaceError::Timeout => RenderError::SurfaceOutdatedOrTimeout,
            SurfaceError::OutOfMemory => RenderError::SurfaceOutOfMemory,
        }
    }

    /// Classifies an acquisition error.
    #[verifier::when_used_as_spec(spec_classify)]
    pub fn classify(self) -> (class: RenderError)
        ensures
            class == self.spec_classify(),
    {
        match self {
            SurfaceError::Lost => RenderError::SurfaceLost,
            SurfaceError::Outdated => RenderError::SurfaceOutdatedOrTimeout,
            SurfaceError::Timeout => RenderError::SurfaceOutdatedOrTimeout,
            SurfaceError::OutOfMemory => RenderError::SurfaceOutOfMemory,
        }
    }
}

impl RenderError {
    /// A lost surface is rebuilt, an outdated or late one is waited for,
    /// and everything else ends the program.
    pub open spec fn spec_recovery(self) -> Recovery {
        match self {
            RenderError::SurfaceLost => Recovery::Reconfigure,
            RenderError::SurfaceOutdatedOrTimeout => Recovery::Skip,
            RenderError::SurfaceOutOfMemory => Recovery::Fatal,
            RenderError::DeviceInit => Recovery::Fatal,
            RenderError::ResourceConstruction => Recovery::Fatal,
        }
    }

    /// The action that a failure of this class calls for.
    #[verifier::when_used_as_spec(spec_recovery)]
    pub fn recovery(self) -> (action: Recovery)
        ensures
            action == self.spec_recovery(),
    {
        match self {
            RenderError::SurfaceLost => Recovery::Reconfigure,
            RenderError::SurfaceOutdatedOrTimeout => Recovery::Skip,
            RenderError::SurfaceOutOfMemory => Recovery::Fatal,
            RenderError::DeviceInit => Recovery::Fatal,
            RenderError::ResourceConstruction => Recovery::Fatal,
        }
    }

    /// Whether the failure ends the program.
    pub open spec fn spec_is_fatal(self) -> bool {
        self.spec_recovery() == Recovery::Fatal
    }

    /// Whether the failure ends the program.
    #[verifier::when_used_as_spec(spec_is_fatal)]
    pub fn is_fatal(self) -> (fatal: bool)
        ensures
            fatal == self.spec_is_fatal(),
    {
        match self.recovery() {
            Recovery::Fatal => true,
            _ => false,
        }
    }
}

/// How frames are handed to the display.
#[derive(Debug, Clone, Copy, PartialEq, Eq, Structural)]
pub enum PresentMode {
    AutoVsync,
    AutoNoVsync,
    Fifo,
    FifoRelaxed,
    Immediate,
    Mailbox,
}

/// What the adapter offers for a surface: how many texture formats and how
/// many alpha modes, each list in the adapter's order of preference.
#[derive(Debug, Clone, Copy, PartialEq, Eq, Structural)]
pub struct SurfaceCapabilities {
    pub formats: usize,
    pub alpha_modes: usize,
}

/// The configuration of the presentation surface. `format` and
/// `alpha_mode` index the lists of the adapter's capabilities.
#[derive(Debug, Clone, Copy, PartialEq, Eq, Structural)]
pub struct SurfaceConfiguration {
    pub format: usize,
    pub alpha_mode: usize,
    pub width: u32,
    pub height: u32,
    pub present_mode: PresentMode,
}

impl SurfaceConfiguration {
    /// The configuration chosen at startup: the adapter's preferred format
    /// and alpha mode, the window's size, and vertical sync.
    pub open spec fn spec_negotiate(
        capabilities: SurfaceCapabilities,
        width: u32,
        height: u32,
    ) -> Result<SurfaceConfiguration, RenderError> {
        if capabilities.formats == 0 || capabilities.alpha_modes == 0 {
            Err(RenderError::DeviceInit)
        } else {
            Ok(
                SurfaceConfiguration {
                    format: 0,
                    alpha_mode: 0,
                    width,
                    height,
                    present_mode: PresentMode::Fifo,
                },
            )
        }
    }

    /// Chooses the surface configuration from what the adapter offers. An
    /// adapter without any format or alpha mode cannot present.
    pub fn negotiate(capabilities: SurfaceCapabilities, width: u32, height: u32) -> (config:
        Result<SurfaceConfiguration, RenderError>)
        ensures
            config == Self::spec_negotiate(capabilities, width, height),
    {
        if capabilities.formats == 0 || capabilities.alpha_modes == 0 {
            Err(RenderError::DeviceInit)
        } else {
            Ok(
                SurfaceConfiguration {
                    format: 0,
                    alpha_mode: 0,
                    width,
                    height,
                    present_mode: PresentMode::Fifo,
                },
            )
        }
    }
}

} // verus!
