//! A TRUEOS vGPU surface backed by a UI4 window.

use vstd::prelude::*;

use core::marker::PhantomData;

use crate::config::Config;
use crate::context::{context_current, PossiblyCurrentContext};
use crate::context::CurrentContextSlot;
use crate::display::Display;
use crate::error::{error_of_kind, not_supported, Error, ErrorKind, Result};
use crate::handle::NativeWindow;
use crate::vgpu::{rc_result, SurfaceInfo, SURFACE_FORMAT_RGBA8_UNORM_SRGB, check_rc};

verus! {

/// The kind of a surface.
#[derive(Debug, Clone, Copy, PartialEq, Eq)]
pub enum SurfaceType {
    /// A window surface.
    Window,
    /// A pbuffer surface.
    Pbuffer,
    /// A pixmap surface.
    Pixmap,
}

/// The marker types that name the kind of a surface.
pub trait SurfaceTypeTrait {
    /// The kind this marker names.
    fn surface_type() -> SurfaceType;
}

/// Marks a window surface.
#[derive(Debug, Clone, Copy, PartialEq, Eq)]
pub struct WindowSurface;

/// Marks a pbuffer surface.
#[derive(Debug, Clone, Copy, PartialEq, Eq)]
pub struct PbufferSurface;

/// Marks a pixmap surface.
#[derive(Debug, Clone, Copy, PartialEq, Eq)]
pub struct PixmapSurface;

impl SurfaceTypeTrait for WindowSurface {
    fn surface_type() -> (r: SurfaceType)
        ensures
            r == SurfaceType::Window,
    {
        SurfaceType::Window
    }
}

impl SurfaceTypeTrait for PbufferSurface {
    fn surface_type() -> (r: SurfaceType)
        ensures
            r == SurfaceType::Pbuffer,
    {
        SurfaceType::Pbuffer
    }
}

impl SurfaceTypeTrait for PixmapSurface {
    fn surface_type() -> (r: SurfaceType)
        ensures
            r == SurfaceType::Pixmap,
    {
        SurfaceType::Pixmap
    }
}

/// What a caller asks of a surface of kind `T`.
#[derive(Debug)]
pub struct SurfaceAttributes<T: SurfaceTypeTrait> {
    /// The native window to render to.
    pub raw_window_handle: Option<NativeWindow>,
    /// The width asked for.
    pub width: Option<u32>,
    /// The height asked for.
    pub height: Option<u32>,
    /// Whether an sRGB surface is asked for.
    pub srgb: Option<bool>,
    /// Whether a single buffered surface is asked for.
    pub single_buffer: bool,
    /// Whether the largest pbuffer is asked for.
    pub largest_pbuffer: bool,
    /// The kind of surface the attributes are for.
    pub surface_kind: PhantomData<T>,
}

impl<T: SurfaceTypeTrait> SurfaceAttributes<T> {
    /// Attributes that name `raw_window_handle` and leave everything else
    /// to the host.
    pub fn new(raw_window_handle: Option<NativeWindow>) -> (r: SurfaceAttributes<T>)
        ensures
            r.raw_window_handle == raw_window_handle,
            r.width is None,
            r.height is None,
            r.srgb is None,
            !r.single_buffer,
            !r.largest_pbuffer,
    {
        SurfaceAttributes {
            raw_window_handle,
            width: None,
            height: None,
            srgb: None,
            single_buffer: false,
            largest_pbuffer: false,
            surface_kind: PhantomData,
        }
    }
}

/// The swap interval of a surface.
#[derive(Debug, Clone, Copy, PartialEq, Eq)]
pub enum SwapInterval {
    /// Do not wait for a vertical blank.
    DontWait,
    /// Wait for the given number of vertical blanks.
    Wait(u32),
}

/// The raw id of a surface.
#[derive(Debug, Clone, Copy, PartialEq, Eq)]
pub enum RawSurface {
    /// The id of the TRUEOS UI4 window.
    TrueOs(u64),
}

/// The vGPU surface acquired for a UI4 window while it is bound to a
/// context.
#[derive(Debug, Clone, Copy, PartialEq, Eq)]
pub struct BoundSurface {
    /// The opaque vGPU surface handle.
    pub surface: u64,
    /// The width in pixels.
    pub width: u32,
    /// The height in pixels.
    pub height: u32,
}

/// The state of a surface: its window and the vGPU surface it is bound to.
pub struct SurfaceState {
    /// The id of the UI4 window.
    pub window_id: u32,
    /// The vGPU surface acquired last, if any.
    pub bound: Option<BoundSurface>,
}

/// `w * 4`, or `u32::MAX` where that does not fit in a `u32`.
pub open spec fn saturating_quadruple(w: u32) -> u32 {
    if 4 * w > u32::MAX {
        u32::MAX
    } else {
        (4 * w) as u32
    }
}

/// Whether the host's report describes a usable surface: a nonzero handle,
/// a nonzero size, rows of at least four bytes per pixel, RGBA8 sRGB.
pub open spec fn surface_info_usable(info: SurfaceInfo) -> bool {
    &&& info.surface != 0
    &&& info.width != 0
    &&& info.height != 0
    &&& info.pitch >= saturating_quadruple(info.width)
    &&& info.format == SURFACE_FORMAT_RGBA8_UNORM_SRGB
}

/// What an acquisition that returned `rc` and wrote `info` yields: the
/// error of the code, else `BadSurface` for an unusable report, else the
/// surface that the report describes.
pub open spec fn acquire_outcome(rc: i32, info: SurfaceInfo) -> Result<BoundSurface> {
    if rc != 0 {
        Err(rc_result(rc)->Err_0)
    } else if !surface_info_usable(info) {
        Err(error_of_kind(ErrorKind::BadSurface))
    } else {
        Ok(BoundSurface { surface: info.surface, width: info.width, height: info.height })
    }
}

/// Whether surface `s` is current for context `ctx` on the thread whose
/// current device is `slot`: the context is current there and its bound
/// vGPU surface is the one `s` acquired last.
pub open spec fn surface_current(
    s: SurfaceState,
    ctx: crate::context::ContextState,
    slot: Option<u64>,
) -> bool {
    match s.bound {
        Some(b) => context_current(ctx, slot) && ctx.current_surface == Some(b.surface),
        None => false,
    }
}

/// A TRUEOS vGPU surface backed by a UI4 window.
#[derive(Debug)]
pub struct Surface<T: SurfaceTypeTrait> {
    display: Display,
    config: Config,
    window_id: u32,
    bound: Option<BoundSurface>,
    _ty: PhantomData<T>,
}

impl<T: SurfaceTypeTrait> View for Surface<T> {
    type V = SurfaceState;

    closed spec fn view(&self) -> SurfaceState {
        SurfaceState { window_id: self.window_id, bound: self.bound }
    }
}

/// The message of the error for a pixmap surface.
pub open spec fn pixmap_message() -> &'static str {
    "pixmaps are not supported with TRUEOS"
}

/// The message of the error for a pbuffer surface.
pub open spec fn pbuffer_message() -> &'static str {
    "pbuffers are not supported with TRUEOS"
}

/// The message of the error for a window of another platform.
pub open spec fn unsupported_window_message() -> &'static str {
    "provided native window is not supported"
}

/// The message of the error for a swap interval.
pub open spec fn swap_interval_message() -> &'static str {
    "swap intervals are not supported with TRUEOS"
}

impl Display {
    /// Pixmap surfaces are not supported.
    pub fn create_pixmap_surface(
        &self,
        config: &Config,
        surface_attributes: &SurfaceAttributes<PixmapSurface>,
    ) -> (r: Result<Surface<PixmapSurface>>)
        ensures
            r matches Err(e) && e == not_supported(pixmap_message()),
    {
        Err(Error::from_kind(ErrorKind::NotSupported("pixmaps are not supported with TRUEOS")))
    }

    /// Pbuffer surfaces are not supported.
    pub fn create_pbuffer_surface(
        &self,
        config: &Config,
        surface_attributes: &SurfaceAttributes<PbufferSurface>,
    ) -> (r: Result<Surface<PbufferSurface>>)
        ensures
            r matches Err(e) && e == not_supported(pbuffer_message()),
    {
        Err(Error::from_kind(ErrorKind::NotSupported("pbuffers are not supported with TRUEOS")))
    }

    /// Creates the surface of a TRUEOS window, not yet bound to a vGPU
    /// surface; any other window, or none, is `NotSupported`.
    pub fn create_window_surface(
        &self,
        config: &Config,
        surface_attributes: &SurfaceAttributes<WindowSurface>,
    ) -> (r: Result<Surface<WindowSurface>>)
        ensures
            match surface_attributes.raw_window_handle {
                Some(NativeWindow::Trueos(w)) => r matches Ok(s) && s@.window_id
                    == w.window_spec() && s@.bound is None && s.display_spec() == *self
                    && s.config_spec() == *config,
                _ => r matches Err(e) && e == not_supported(unsupported_window_message()),
            },
    {
        let window_id = match surface_attributes.raw_window_handle {
            Some(NativeWindow::Trueos(window)) => window.window(),
            _ => {
                return Err(
                    Error::from_kind(
                        ErrorKind::NotSupported("provided native window is not supported"),
                    ),
                );
            },
        };
        Ok(
            Surface {
                display: self.clone(),
                config: config.clone(),
                window_id,
                bound: None,
                _ty: PhantomData,
            },
        )
    }
}

impl<T: SurfaceTypeTrait> Surface<T> {
    #[verifier::type_invariant]
    spec fn well_formed(self) -> bool {
        &&& self.window_id != 0
        &&& (self.bound matches Some(b) ==> b.surface != 0 && b.width != 0 && b.height != 0)
    }

    /// The display this surface was created on.
    pub closed spec fn display_spec(self) -> Display {
        self.display
    }

    /// The config this surface was created with.
    pub closed spec fn config_spec(self) -> Config {
        self.config
    }

    /// The id of the UI4 window, which the host's acquisition is asked for.
    pub fn window_id(&self) -> (r: u32)
        ensures
            r == self@.window_id,
            r != 0,
    {
        proof {
            use_type_invariant(self);
        }
        self.window_id
    }

    /// Takes the result of the host's acquisition of this window's vGPU
    /// surface (the return code and the report it wrote) and, when the
    /// surface is usable, binds this surface to it and returns its handle.
    pub fn acquire(&mut self, rc: i32, info: SurfaceInfo) -> (r: Result<u64>)
        ensures
            match acquire_outcome(rc, info) {
                Ok(b) => r == Ok::<u64, Error>(b.surface) && final(self)@.bound == Some(b)
                    && final(self)@.window_id == old(self)@.window_id,
                Err(e) => r == Err::<u64, Error>(e) && final(self)@ == old(self)@,
            },
            final(self).display_spec() == old(self).display_spec(),
            final(self).config_spec() == old(self).config_spec(),
    {
        proof {
            use_type_invariant(&*self);
        }
        check_rc(rc)?;
        let quadruple: u64 = info.width as u64 * 4;
        let needed: u32 = if quadruple > u32::MAX as u64 {
            u32::MAX
        } else {
            quadruple as u32
        };
        if info.surface == 0 || info.width == 0 || info.height == 0 || info.pitch < needed
            || info.format != SURFACE_FORMAT_RGBA8_UNORM_SRGB {
            return Err(Error::from_kind(ErrorKind::BadSurface));
        }
        self.bound = Some(
            BoundSurface { surface: info.surface, width: info.width, height: info.height },
        );
        Ok(info.surface)
    }

    /// The age of the back buffer: always 0, unknown.
    pub fn buffer_age(&self) -> (r: u32)
        ensures
            r == 0,
    {
        0
    }

    /// The width of the vGPU surface acquired last, if any.
    pub fn width(&self) -> (r: Option<u32>)
        ensures
            r == match self@.bound {
                Some(b) => Some(b.width),
                None => None::<u32>,
            },
    {
        match self.bound {
            Some(bound) => Some(bound.width),
            None => None,
        }
    }

    /// The height of the vGPU surface acquired last, if any.
    pub fn height(&self) -> (r: Option<u32>)
        ensures
            r == match self@.bound {
                Some(b) => Some(b.height),
                None => None::<u32>,
            },
    {
        match self.bound {
            Some(bound) => Some(bound.height),
            None => None,
        }
    }

    /// Whether the surface is single buffered: no.
    pub fn is_single_buffered(&self) -> (r: bool)
        ensures
            r == false,
    {
        false
    }

    /// Presents the surface: presentation happens with the vGPU submit
    /// calls that reference the acquired surface, so this always succeeds.
    pub fn swap_buffers(&self, context: &PossiblyCurrentContext) -> (r: Result<()>)
        ensures
            r is Ok,
    {
        Ok(())
    }

    /// Swap intervals are not supported.
    pub fn set_swap_interval(&self, context: &PossiblyCurrentContext, interval: SwapInterval) -> (r:
        Result<()>)
        ensures
            r == Err::<(), Error>(not_supported(swap_interval_message())),
    {
        Err(Error::from_kind(ErrorKind::NotSupported("swap intervals are not supported with TRUEOS")))
    }

    /// Whether this surface is current for `context` on the thread whose
    /// current context is recorded in `slot`.
    pub fn is_current(&self, context: &PossiblyCurrentContext, slot: &CurrentContextSlot) -> (r:
        bool)
        ensures
            r == surface_current(self@, context@, slot@),
    {
        proof {
            context.lemma_view_is_inner();
        }
        match self.bound {
            Some(bound) => context.inner.is_surface_current(slot, bound.surface),
            None => false,
        }
    }

    /// Whether this surface is the current draw surface of `context`: the
    /// same as [`Surface::is_current`].
    pub fn is_current_draw(&self, context: &PossiblyCurrentContext, slot: &CurrentContextSlot) -> (r:
        bool)
        ensures
            r == surface_current(self@, context@, slot@),
    {
        self.is_current(context, slot)
    }

    /// Whether this surface is the current read surface of `context`: the
    /// same as [`Surface::is_current`].
    pub fn is_current_read(&self, context: &PossiblyCurrentContext, slot: &CurrentContextSlot) -> (r:
        bool)
        ensures
            r == surface_current(self@, context@, slot@),
    {
        self.is_current(context, slot)
    }

    /// Resizing does nothing: the UI4 compositor sets the size, which the
    /// next acquisition reports.
    pub fn resize(&self, context: &PossiblyCurrentContext, width: u32, height: u32)
        requires
            width != 0,
            height != 0,
    {
    }

    /// The config this surface was created with.
    pub fn config(&self) -> (r: Config)
        ensures
            r == self.config_spec(),
    {
        self.config.clone()
    }

    /// The display this surface was created on.
    pub fn display(&self) -> (r: Display)
        ensures
            r == self.display_spec(),
    {
        self.display.clone()
    }

    /// The raw id of the surface: its window id.
    pub fn raw_surface(&self) -> (r: RawSurface)
        ensures
            r == RawSurface::TrueOs(self@.window_id as u64),
            self@.window_id != 0,
    {
        proof {
            use_type_invariant(self);
        }
        RawSurface::TrueOs(self.window_id as u64)
    }
}

} // verus!
