//! The render context: the one piece of state the renderer's logic reads
//! from the GPU connection, the swap surface's configuration, together
//! with frame acquisition and presentation.

use vstd::prelude::*;
use crate::frame::Frame;

verus! {

/// Why frame acquisition can fail.
#[derive(Clone, Copy, PartialEq, Eq, Structural, Debug)]
pub enum AcquireError {
    /// The surface was lost; reconfiguring at the current size recovers it.
    SurfaceLost,
    /// The device is out of memory; the program must shut down.
    OutOfMemory,
    /// A transient failure; the frame is dropped and the loop goes on.
    Other,
}

/// Why startup fails.
#[derive(Clone, Copy, PartialEq, Eq, Structural, Debug)]
pub enum InitError {
    /// No compatible adapter or device exists; the program aborts.
    DeviceUnavailable,
}

/// The swap surface's configuration: its dimensions and the pixel format
/// the adapter chose, carried as an opaque identifier.
#[derive(Clone, Copy, PartialEq, Eq, Structural, Debug)]
pub struct SurfaceConfig {
    pub width: u32,
    pub height: u32,
    pub format_id: u32,
}

impl SurfaceConfig {
    /// A surface may only be used with positive dimensions.
    pub open spec fn wf(self) -> bool {
        self.width > 0 && self.height > 0
    }
}

/// Owns the GPU connection for the program's lifetime. The device, queue
/// and platform surface live with the host; the logic that is modeled
/// here reads and writes only the surface configuration.
#[derive(Clone, Copy, PartialEq, Eq, Structural, Debug)]
pub struct RenderContext {
    pub config: SurfaceConfig,
}

impl RenderContext {
    pub open spec fn wf(self) -> bool {
        self.config.wf()
    }

    /// The context after a configure call: a new size is taken only when
    /// both dimensions are positive; otherwise the call is a no-op, and
    /// the previous configuration remains in effect.
    pub open spec fn spec_configure(self, width: u32, height: u32) -> RenderContext {
        if width > 0 && height > 0 {
            RenderContext {
                config: SurfaceConfig { width, height, format_id: self.config.format_id },
            }
        } else {
            self
        }
    }

    /// Opens the context once the host has a device and a surface, at the
    /// window's initial size, which must be positive.
    pub fn new(width: u32, height: u32, format_id: u32) -> (ctx: RenderContext)
        requires
            width > 0,
            height > 0,
        ensures
            ctx.config == (SurfaceConfig { width, height, format_id }),
            ctx.wf(),
    {
        RenderContext { config: SurfaceConfig { width, height, format_id } }
    }

    /// Opens the context at startup for a host-reported adapter outcome:
    /// fails with `DeviceUnavailable` exactly when the host found no
    /// compatible adapter and device; otherwise the surface is
    /// configured at the window's initial size, which must be positive.
    pub fn initialize(width: u32, height: u32, format_id: u32, device_available: bool) -> (r:
        Result<RenderContext, InitError>)
        requires
            width > 0,
            height > 0,
        ensures
            device_available <==> r is Ok,
            r matches Ok(ctx) ==> ctx.config == (SurfaceConfig { width, height, format_id })
                && ctx.wf(),
            !device_available ==> r == Err::<RenderContext, InitError>(InitError::DeviceUnavailable),
    {
        if device_available {
            Ok(RenderContext::new(width, height, format_id))
        } else {
            Err(InitError::DeviceUnavailable)
        }
    }

    /// Reconfigures the surface to a new size. A size with a zero
    /// dimension (a minimized window) is ignored.
    pub fn configure(&mut self, width: u32, height: u32)
        ensures
            *final(self) == old(self).spec_configure(width, height),
            width > 0 && height > 0 ==> final(self).config == (SurfaceConfig {
                width,
                height,
                format_id: old(self).config.format_id,
            }),
            width == 0 || height == 0 ==> *final(self) == *old(self),
            old(self).wf() ==> final(self).wf(),
    {
        if width > 0 && height > 0 {
            self.config.width = width;
            self.config.height = height;
        }
    }

    /// Acquires the next renderable frame. The host reports the surface's
    /// condition in `fault` (`None` from a healthy surface); acquisition
    /// fails exactly when the host reported a fault, and otherwise yields
    /// a frame at exactly the configured size.
    pub fn acquire_frame(&self, fault: Option<AcquireError>) -> (r: Result<Frame, AcquireError>)
        requires
            self.wf(),
            self.config.width * self.config.height <= usize::MAX,
        ensures
            fault is None <==> r is Ok,
            r matches Ok(f) ==> f.spec_width() == self.config.width && f.spec_height()
                == self.config.height && f.wf(),
            fault matches Some(e) ==> r == Err::<Frame, AcquireError>(e),
    {
        match fault {
            None => Ok(Frame::new(self.config.width, self.config.height)),
            Some(e) => Err(e),
        }
    }

    /// Hands a rendered frame to the compositor. What becomes visible is
    /// exactly the rendered image.
    pub fn present(&self, frame: Frame) -> (shown: Frame)
        ensures
            shown == frame,
    {
        frame
    }
}

/// Configuring with a positive size makes the surface well formed at
/// exactly that size, so a fault-free acquisition afterwards meets
/// `acquire_frame`'s contract and succeeds; configuring with a zero
/// dimension leaves the previous configuration in effect.
pub proof fn lemma_configure_then_acquire(ctx: RenderContext, width: u32, height: u32)
    requires
        ctx.wf(),
    ensures
        width > 0 && height > 0 ==> ctx.spec_configure(width, height).wf() && ctx.spec_configure(
            width,
            height,
        ).config.width == width && ctx.spec_configure(width, height).config.height == height,
        width == 0 || height == 0 ==> ctx.spec_configure(width, height) == ctx,
{
}

/// Configuring twice with one size is the same as configuring once with
/// it: no difference remains for any later frame to observe.
pub proof fn lemma_configure_idempotent(ctx: RenderContext, width: u32, height: u32)
    ensures
        ctx.spec_configure(width, height).spec_configure(width, height) == ctx.spec_configure(
            width,
            height,
        ),
{
}

} // verus!
