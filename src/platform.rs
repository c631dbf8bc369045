//! Configuration values: platform data, back-buffer resolution, limits and initialization.
use vstd::prelude::*;

use crate::types::{BgfxError, RendererType, TextureFormat};

verus! {

/// Platform data initializer. Native handles are held as addresses; zero is the null handle.
///
/// The default value of every handle is null. The window must be set, and on windowing
/// systems with a separate display connection (X11) the display must be set too.
#[derive(PartialEq, Eq, Structural, Debug, Copy, Clone)]
pub struct PlatformData {
    display: usize,
    window: usize,
    context: usize,
}

/// What applying platform data with `display` and `window` gives.
pub open spec fn platform_check(display: usize, window: usize, display_required: bool) -> Result<
    (),
    BgfxError,
> {
    if window == 0 {
        Err(BgfxError::InvalidWindow)
    } else if display_required && display == 0 {
        Err(BgfxError::InvalidDisplay)
    } else {
        Ok(())
    }
}

impl PlatformData {
    pub closed spec fn display_spec(self) -> usize {
        self.display
    }

    pub closed spec fn window_spec(self) -> usize {
        self.window
    }

    pub closed spec fn context_spec(self) -> usize {
        self.context
    }

    /// Creates an empty PlatformData instance.
    pub fn new() -> (p: PlatformData)
        ensures
            p.display_spec() == 0,
            p.window_spec() == 0,
            p.context_spec() == 0,
    {
        PlatformData { display: 0, window: 0, context: 0 }
    }

    /// Sets the GL context to use.
    pub fn context(self, context: usize) -> (p: PlatformData)
        ensures
            p.display_spec() == self.display_spec(),
            p.window_spec() == self.window_spec(),
            p.context_spec() == context,
    {
        PlatformData { context, ..self }
    }

    /// Sets the X11 display to use on unix systems.
    pub fn display(self, display: usize) -> (p: PlatformData)
        ensures
            p.display_spec() == display,
            p.window_spec() == self.window_spec(),
            p.context_spec() == self.context_spec(),
    {
        PlatformData { display, ..self }
    }

    /// Sets the handle to the window to use.
    pub fn window(self, window: usize) -> (p: PlatformData)
        ensures
            p.display_spec() == self.display_spec(),
            p.window_spec() == window,
            p.context_spec() == self.context_spec(),
    {
        PlatformData { window, ..self }
    }

    /// The display handle.
    pub fn display_handle(&self) -> (r: usize)
        ensures
            r == self.display_spec(),
    {
        self.display
    }

    /// The window handle.
    pub fn window_handle(&self) -> (r: usize)
        ensures
            r == self.window_spec(),
    {
        self.window
    }

    /// The GL context handle.
    pub fn context_handle(&self) -> (r: usize)
        ensures
            r == self.context_spec(),
    {
        self.context
    }

    /// Checks the platform configuration before it is handed to the native library.
    /// `display_required` tells whether this windowing system needs a display connection.
    /// A missing window is reported first; on `Ok` the data may be applied.
    pub fn apply(&self, display_required: bool) -> (r: Result<(), BgfxError>)
        ensures
            r == platform_check(self.display_spec(), self.window_spec(), display_required),
    {
        if self.window == 0 {
            Err(BgfxError::InvalidWindow)
        } else if display_required && self.display == 0 {
            Err(BgfxError::InvalidDisplay)
        } else {
            Ok(())
        }
    }
}

/// Applying platform data succeeds exactly when a window is set and, where the windowing system
/// requires one, a display is set; a missing window always gives `InvalidWindow`, whatever the
/// display; a set window with a missing required display gives `InvalidDisplay`.
pub proof fn lemma_platform_check(display: usize, window: usize, display_required: bool)
    ensures
        platform_check(display, window, display_required) is Ok <==> (window != 0 && (
        !display_required || display != 0)),
        window == 0 ==> platform_check(display, window, display_required) == Err::<
            (),
            BgfxError,
        >(BgfxError::InvalidWindow),
        window != 0 && display_required && display == 0 ==> platform_check(
            display,
            window,
            display_required,
        ) == Err::<(), BgfxError>(BgfxError::InvalidDisplay),
        !display_required ==> platform_check(display, window, display_required)
            == platform_check(0, window, display_required),
{
}

/// Back-buffer resolution and format.
#[derive(PartialEq, Eq, Structural, Debug, Copy, Clone)]
pub struct Resolution {
    pub format: TextureFormat,
    pub width: u32,
    pub height: u32,
    pub reset: u32,
    pub num_back_buffers: u8,
    pub max_frame_latency: u8,
}

impl Resolution {
    /// Sets the back-buffer format.
    pub fn with_format(self, format: TextureFormat) -> (r: Resolution)
        ensures
            r == (Resolution { format, ..self }),
    {
        Resolution { format, ..self }
    }

    /// Sets the width.
    pub fn with_width(self, width: u32) -> (r: Resolution)
        ensures
            r == (Resolution { width, ..self }),
    {
        Resolution { width, ..self }
    }

    /// Sets the height.
    pub fn with_height(self, height: u32) -> (r: Resolution)
        ensures
            r == (Resolution { height, ..self }),
    {
        Resolution { height, ..self }
    }
}

impl Default for Resolution {
    /// Unknown format, zero size, no reset flags, no back buffers and no latency bound.
    fn default() -> (r: Resolution)
        ensures
            r == (Resolution {
                format: TextureFormat::Unknown,
                width: 0,
                height: 0,
                reset: 0,
                num_back_buffers: 0,
                max_frame_latency: 0,
            }),
    {
        Resolution {
            format: TextureFormat::Unknown,
            width: 0,
            height: 0,
            reset: 0,
            num_back_buffers: 0,
            max_frame_latency: 0,
        }
    }
}

/// Limits of the native library's internal resources.
#[derive(PartialEq, Eq, Structural, Debug, Copy, Clone)]
pub struct InitLimits {
    pub max_encoders: u16,
    pub transient_vb_size: u32,
    pub transient_ib_size: u32,
}

impl Default for InitLimits {
    /// All limits zero.
    fn default() -> (r: InitLimits)
        ensures
            r == (InitLimits { max_encoders: 0, transient_vb_size: 0, transient_ib_size: 0 }),
    {
        InitLimits { max_encoders: 0, transient_vb_size: 0, transient_ib_size: 0 }
    }
}

/// Initialization parameters. A resolution or limits left unset keep the native library's
/// defaults.
#[derive(PartialEq, Eq, Structural, Debug, Copy, Clone)]
pub struct Init {
    renderer: RendererType,
    resolution: Option<Resolution>,
    limits: Option<InitLimits>,
}

impl Init {
    pub closed spec fn renderer_spec(self) -> RendererType {
        self.renderer
    }

    pub closed spec fn resolution_spec(self) -> Option<Resolution> {
        self.resolution
    }

    pub closed spec fn limits_spec(self) -> Option<InitLimits> {
        self.limits
    }

    /// Selects the renderer backend.
    pub fn with_renderer(self, renderer: RendererType) -> (r: Init)
        ensures
            r.renderer_spec() == renderer,
            r.resolution_spec() == self.resolution_spec(),
            r.limits_spec() == self.limits_spec(),
    {
        Init { renderer, ..self }
    }

    /// Sets the back-buffer resolution.
    pub fn with_resolution(self, resolution: Resolution) -> (r: Init)
        ensures
            r.renderer_spec() == self.renderer_spec(),
            r.resolution_spec() == Some(resolution),
            r.limits_spec() == self.limits_spec(),
    {
        Init { resolution: Some(resolution), ..self }
    }

    /// Sets the resource limits.
    pub fn with_limits(self, limits: InitLimits) -> (r: Init)
        ensures
            r.renderer_spec() == self.renderer_spec(),
            r.resolution_spec() == self.resolution_spec(),
            r.limits_spec() == Some(limits),
    {
        Init { limits: Some(limits), ..self }
    }

    /// The selected renderer backend.
    pub fn renderer(&self) -> (r: RendererType)
        ensures
            r == self.renderer_spec(),
    {
        self.renderer
    }

    /// The resolution, if one was set.
    pub fn resolution(&self) -> (r: Option<Resolution>)
        ensures
            r == self.resolution_spec(),
    {
        self.resolution
    }

    /// The limits, if they were set.
    pub fn limits(&self) -> (r: Option<InitLimits>)
        ensures
            r == self.limits_spec(),
    {
        self.limits
    }
}

impl Default for Init {
    /// The most platform appropriate renderer, with the native default resolution and limits.
    fn default() -> (r: Init)
        ensures
            r.renderer_spec() == RendererType::Default,
            r.resolution_spec() is None,
            r.limits_spec() is None,
    {
        Init { renderer: RendererType::Default, resolution: None, limits: None }
    }
}

} // verus!
