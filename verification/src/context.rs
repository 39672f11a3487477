//! TRUEOS vGPU contexts and the record of which context is current on a
//! thread.

use vstd::prelude::*;

use crate::config::Config;
use crate::display::Display;
use crate::error::{not_supported, Error, ErrorKind, Result};
use crate::surface::{acquire_outcome, Surface, SurfaceState, SurfaceTypeTrait};
use crate::vgpu::{check_rc, rc_result, CAPABILITIES_RENDER_PRESENT};

verus! {

/// A version of a client API.
#[derive(Debug, Clone, Copy, PartialEq, Eq)]
pub struct Version {
    /// The major version.
    pub major: u8,
    /// The minor version.
    pub minor: u8,
}

/// The client API of a context, with an optional version.
#[derive(Debug, Clone, Copy, PartialEq, Eq)]
pub enum ContextApi {
    /// Desktop OpenGL.
    OpenGl(Option<Version>),
    /// OpenGL ES.
    Gles(Option<Version>),
}

/// The robustness a context is asked to have.
#[derive(Debug, Clone, Copy, PartialEq, Eq)]
pub enum Robustness {
    /// No robustness.
    NotRobust,
    /// Errors are not reported.
    NoError,
    /// Robust access without reset notification.
    RobustNoResetNotification,
    /// Robust access; the context is lost on reset.
    RobustLoseContextOnReset,
}

/// The priority of a context.
#[derive(Debug, Clone, Copy, PartialEq, Eq)]
pub enum Priority {
    /// Low priority.
    Low,
    /// Medium priority.
    Medium,
    /// High priority.
    High,
    /// Realtime priority.
    Realtime,
}

/// The OpenGL profile of a context.
#[derive(Debug, Clone, Copy, PartialEq, Eq)]
pub enum GlProfile {
    /// The core profile.
    Core,
    /// The compatibility profile.
    Compatibility,
}

/// What happens when a context stops being current.
#[derive(Debug, Clone, Copy, PartialEq, Eq)]
pub enum ReleaseBehavior {
    /// Nothing happens: the context is not flushed.
    NoFlush,
    /// The context is flushed.
    Flush,
}

/// The raw id of a context.
#[derive(Debug, Clone, Copy, PartialEq, Eq)]
pub enum RawContext {
    /// The vGPU device handle of a TRUEOS context.
    TrueOs(u64),
}

/// What a caller asks of a context.
#[derive(Debug, Clone, Copy, PartialEq, Eq)]
pub struct ContextAttributes {
    /// What happens when the context stops being current.
    pub release_behavior: ReleaseBehavior,
    /// Whether a debug context is asked for.
    pub debug: bool,
    /// The robustness asked for.
    pub robustness: Robustness,
    /// The OpenGL profile asked for.
    pub profile: Option<GlProfile>,
    /// The client API asked for.
    pub api: Option<ContextApi>,
    /// The priority asked for.
    pub priority: Option<Priority>,
    /// The context to share objects with.
    pub shared_context: Option<RawContext>,
}

impl ContextAttributes {
    /// Attributes that ask for nothing in particular.
    pub fn new() -> (r: ContextAttributes)
        ensures
            r.release_behavior == ReleaseBehavior::Flush,
            !r.debug,
            r.robustness == Robustness::NotRobust,
            r.profile is None,
            r.api is None,
            r.priority is None,
            r.shared_context is None,
    {
        ContextAttributes {
            release_behavior: ReleaseBehavior::Flush,
            debug: false,
            robustness: Robustness::NotRobust,
            profile: None,
            api: None,
            priority: None,
            shared_context: None,
        }
    }
}

/// The message of the error for a desktop OpenGL context.
pub open spec fn only_gles_message() -> &'static str {
    "only gles is supported with TRUEOS"
}

/// The message of the error for a robust context.
pub open spec fn robustness_message() -> &'static str {
    "robustness is not supported with TRUEOS"
}

/// The message of the error for separate draw and read surfaces.
pub open spec fn draw_read_message() -> &'static str {
    "make current draw read isn't supported with TRUEOS"
}

/// The message of the error for a context without a surface.
pub open spec fn surfaceless_message() -> &'static str {
    "surfaceless contexts are not supported with TRUEOS"
}

/// The error that context attributes `a` are refused with, if any: desktop
/// OpenGL first, then any robustness.
pub open spec fn attributes_error(a: ContextAttributes) -> Option<Error> {
    if a.api matches Some(ContextApi::OpenGl(_)) {
        Some(not_supported(only_gles_message()))
    } else if a.robustness != Robustness::NotRobust {
        Some(not_supported(robustness_message()))
    } else {
        None
    }
}

/// The state of a context: its vGPU device and the vGPU surface bound to
/// it, if any.
pub struct ContextState {
    /// The vGPU device handle, which is also the raw context id.
    pub device: u64,
    /// The vGPU surface bound to the context, if any.
    pub current_surface: Option<u64>,
}

/// Whether the context `ctx` is current on the thread whose current device
/// is `slot`.
pub open spec fn context_current(ctx: ContextState, slot: Option<u64>) -> bool {
    slot == Some(ctx.device)
}

/// What making `ctx` current with surface `s` does on the thread whose
/// current device is `slot`, when the host's acquisition returned `rc` and
/// wrote `info`: on success the surface is bound to the acquired vGPU
/// surface, the context to that surface, and the thread's current device
/// becomes the context's; on failure nothing changes.
pub open spec fn make_current_step(
    ctx: ContextState,
    s: SurfaceState,
    slot: Option<u64>,
    rc: i32,
    info: crate::vgpu::SurfaceInfo,
) -> (ContextState, SurfaceState, Option<u64>, Result<()>) {
    match acquire_outcome(rc, info) {
        Ok(b) => (
            ContextState { device: ctx.device, current_surface: Some(b.surface) },
            SurfaceState { window_id: s.window_id, bound: Some(b) },
            Some(ctx.device),
            Ok(()),
        ),
        Err(e) => (ctx, s, slot, Err(e)),
    }
}

/// What making `ctx` not current does on the thread whose current device is
/// `slot`, when discarding its bound surface (if any) returned `rc`: the
/// context's surface is unbound in any case; when the discard failed its
/// error is returned and the thread is left as it was; else the thread has
/// no current device any more if it was this context's.
pub open spec fn make_not_current_step(ctx: ContextState, slot: Option<u64>, rc: i32) -> (
    ContextState,
    Option<u64>,
    Result<()>,
) {
    let unbound = ContextState { device: ctx.device, current_surface: None };
    if ctx.current_surface is Some && rc != 0 {
        (unbound, slot, rc_result(rc))
    } else if slot == Some(ctx.device) {
        (unbound, None, Ok(()))
    } else {
        (unbound, slot, Ok(()))
    }
}

/// The record `slot` of a thread once the context of `device` is known not
/// to be current there: cleared if it named that device, else unchanged.
pub open spec fn released_slot(slot: Option<u64>, device: u64) -> Option<u64> {
    if slot == Some(device) {
        None
    } else {
        slot
    }
}

/// The record of which context is current on one thread: the vGPU device
/// of that context, if any.
#[derive(Debug)]
pub struct CurrentContextSlot {
    device: Option<u64>,
}

impl View for CurrentContextSlot {
    type V = Option<u64>;

    closed spec fn view(&self) -> Option<u64> {
        self.device
    }
}

impl CurrentContextSlot {
    /// The record of a thread on which no context is current.
    pub fn new() -> (r: CurrentContextSlot)
        ensures
            r@ is None,
    {
        CurrentContextSlot { device: None }
    }

    /// The device of the context current on the thread, if any.
    pub fn current_device(&self) -> (r: Option<u64>)
        ensures
            r == self@,
    {
        self.device
    }
}

/// The state shared by a context whether it is current or not.
#[derive(Debug)]
pub struct ContextInner {
    display: Display,
    config: Config,
    device: u64,
    current_surface: Option<u64>,
}

impl View for ContextInner {
    type V = ContextState;

    closed spec fn view(&self) -> ContextState {
        ContextState { device: self.device, current_surface: self.current_surface }
    }
}

impl ContextInner {
    /// A context is never bound to the null vGPU surface.
    #[verifier::type_invariant]
    spec fn bound_surface_nonnull(self) -> bool {
        self.current_surface != Some(0u64)
    }

    /// The display the context was created on.
    pub closed spec fn display_spec(self) -> Display {
        self.display
    }

    /// The config the context was created with.
    pub closed spec fn config_spec(self) -> Config {
        self.config
    }

    /// Takes the result of the host's acquisition of `surface`'s vGPU
    /// surface for this context's device and, on success, binds the surface
    /// to this context and makes this context the thread's current one.
    pub fn make_current<T: SurfaceTypeTrait>(
        &mut self,
        surface: &mut Surface<T>,
        slot: &mut CurrentContextSlot,
        acquire_rc: i32,
        info: crate::vgpu::SurfaceInfo,
    ) -> (r: Result<()>)
        ensures
            (final(self)@, final(surface)@, final(slot)@, r) == make_current_step(
                old(self)@,
                old(surface)@,
                old(slot)@,
                acquire_rc,
                info,
            ),
            final(self).display_spec() == old(self).display_spec(),
            final(self).config_spec() == old(self).config_spec(),
            final(surface).display_spec() == old(surface).display_spec(),
            final(surface).config_spec() == old(surface).config_spec(),
    {
        let bound = surface.acquire(acquire_rc, info)?;
        self.current_surface = Some(bound);
        slot.device = Some(self.device);
        Ok(())
    }

    /// Takes the return code of the host's discard of the bound vGPU surface
    /// (read only when a surface is bound), unbinds it and, unless the
    /// discard failed, clears the thread's record if it names this context.
    pub fn make_not_current(&mut self, slot: &mut CurrentContextSlot, discard_rc: i32) -> (r:
        Result<()>)
        ensures
            (final(self)@, final(slot)@, r) == make_not_current_step(
                old(self)@,
                old(slot)@,
                discard_rc,
            ),
            final(self).display_spec() == old(self).display_spec(),
            final(self).config_spec() == old(self).config_spec(),
    {
        let bound = self.current_surface;
        self.current_surface = None;
        if bound.is_some() {
            check_rc(discard_rc)?;
        }
        let clear = match slot.device {
            Some(d) => d == self.device,
            None => false,
        };
        if clear {
            slot.device = None;
        }
        Ok(())
    }

    /// The vGPU surface bound to this context, which making it not current
    /// asks the host to discard.
    pub fn current_surface(&self) -> (r: Option<u64>)
        ensures
            r == self@.current_surface,
            r != Some(0u64),
    {
        proof {
            use_type_invariant(self);
        }
        self.current_surface
    }

    /// The vGPU device handle of this context.
    pub fn device(&self) -> (r: u64)
        ensures
            r == self@.device,
    {
        self.device
    }

    /// Whether this context is current on the thread of `slot`.
    pub fn is_current(&self, slot: &CurrentContextSlot) -> (r: bool)
        ensures
            r == context_current(self@, slot@),
    {
        match slot.device {
            Some(d) => d == self.device,
            None => false,
        }
    }

    /// Whether this context is current on the thread of `slot` with the
    /// vGPU surface `surface` bound.
    pub fn is_surface_current(&self, slot: &CurrentContextSlot, surface: u64) -> (r: bool)
        ensures
            r == (context_current(self@, slot@) && self@.current_surface == Some(surface)),
            surface == 0 ==> !r,
    {
        proof {
            use_type_invariant(self);
        }
        let bound = match self.current_surface {
            Some(s) => s == surface,
            None => false,
        };
        self.is_current(slot) && bound
    }

    /// The client API of the context: GLES of no particular version.
    pub fn context_api(&self) -> (r: ContextApi)
        ensures
            r == ContextApi::Gles(None),
    {
        ContextApi::Gles(None)
    }
}

impl Display {
    /// Checks context attributes and returns the capabilities that the
    /// context's vGPU device must be opened with.
    pub fn context_device_request(&self, context_attributes: &ContextAttributes) -> (r: Result<
        u64,
    >)
        ensures
            match attributes_error(*context_attributes) {
                Some(e) => r == Err::<u64, Error>(e),
                None => r == Ok::<u64, Error>(CAPABILITIES_RENDER_PRESENT),
            },
    {
        match context_attributes.api {
            Some(ContextApi::OpenGl(_)) => {
                return Err(
                    Error::from_kind(ErrorKind::NotSupported("only gles is supported with TRUEOS")),
                );
            },
            _ => {},
        }
        match context_attributes.robustness {
            Robustness::NotRobust => {},
            _ => {
                return Err(
                    Error::from_kind(
                        ErrorKind::NotSupported("robustness is not supported with TRUEOS"),
                    ),
                );
            },
        }
        Ok(CAPABILITIES_RENDER_PRESENT)
    }

    /// Creates a context from the host's opening of a vGPU device (its
    /// return code and the device handle it wrote): refused attributes are
    /// reported first, then a failed opening; else the context of that
    /// device, with no surface bound. A new context is not current on the
    /// thread of `slot`: a record left there that names the new device (by
    /// a context dropped while current, whose device number the host gave
    /// out again) is cleared; a failed creation leaves the record alone.
    pub fn create_context(
        &self,
        config: &Config,
        context_attributes: &ContextAttributes,
        slot: &mut CurrentContextSlot,
        open_rc: i32,
        device: u64,
    ) -> (r: Result<NotCurrentContext>)
        ensures
            match attributes_error(*context_attributes) {
                Some(e) => r == Err::<NotCurrentContext, Error>(e),
                None => if open_rc != 0 {
                    r == Err::<NotCurrentContext, Error>(rc_result(open_rc)->Err_0)
                } else {
                    r matches Ok(c) && c@ == ContextState { device, current_surface: None }
                        && c.display_spec() == *self && c.config_spec() == *config
                },
            },
            r is Ok ==> final(slot)@ == released_slot(old(slot)@, device),
            r is Err ==> final(slot)@ == old(slot)@,
            r matches Ok(c) ==> !context_current(c@, final(slot)@),
    {
        self.context_device_request(context_attributes)?;
        check_rc(open_rc)?;
        let stale = match slot.device {
            Some(d) => d == device,
            None => false,
        };
        if stale {
            slot.device = None;
        }
        let inner = ContextInner {
            display: self.clone(),
            config: config.clone(),
            device,
            current_surface: None,
        };
        Ok(NotCurrentContext { inner })
    }
}

/// A TRUEOS vGPU context that is known to be not current on the current
/// thread.
#[derive(Debug)]
pub struct NotCurrentContext {
    pub(crate) inner: ContextInner,
}

impl View for NotCurrentContext {
    type V = ContextState;

    closed spec fn view(&self) -> ContextState {
        self.inner@
    }
}

impl NotCurrentContext {
    /// The display the context was created on.
    pub closed spec fn display_spec(self) -> Display {
        self.inner.display_spec()
    }

    /// The config the context was created with.
    pub closed spec fn config_spec(self) -> Config {
        self.inner.config_spec()
    }

    /// Treats the context as possibly current, without making it current.
    pub fn treat_as_possibly_current(self) -> (r: PossiblyCurrentContext)
        ensures
            r@ == self@,
            r.display_spec() == self.display_spec(),
            r.config_spec() == self.config_spec(),
    {
        PossiblyCurrentContext { inner: self.inner }
    }

    /// Makes the context current with `surface`, given the host's
    /// acquisition of the surface's vGPU surface for this context's device.
    pub fn make_current<T: SurfaceTypeTrait>(
        self,
        surface: &mut Surface<T>,
        slot: &mut CurrentContextSlot,
        acquire_rc: i32,
        info: crate::vgpu::SurfaceInfo,
    ) -> (r: Result<PossiblyCurrentContext>)
        ensures
            ({
                let step = make_current_step(self@, old(surface)@, old(slot)@, acquire_rc, info);
                &&& final(surface)@ == step.1
                &&& final(slot)@ == step.2
                &&& match step.3 {
                    Ok(_) => r matches Ok(c) && c@ == step.0 && c.display_spec()
                        == self.display_spec() && c.config_spec() == self.config_spec(),
                    Err(e) => r matches Err(e2) && e2 == e,
                }
            }),
            final(surface).display_spec() == old(surface).display_spec(),
            final(surface).config_spec() == old(surface).config_spec(),
    {
        let mut inner = self.inner;
        inner.make_current(surface, slot, acquire_rc, info)?;
        Ok(PossiblyCurrentContext { inner })
    }

    /// Separate draw and read surfaces are not supported.
    pub fn make_current_draw_read<T: SurfaceTypeTrait>(
        self,
        surface_draw: &Surface<T>,
        surface_read: &Surface<T>,
    ) -> (r: Result<PossiblyCurrentContext>)
        ensures
            r matches Err(e) && e == not_supported(draw_read_message()),
    {
        Err(
            Error::from_kind(
                ErrorKind::NotSupported("make current draw read isn't supported with TRUEOS"),
            ),
        )
    }

    /// Contexts without a surface are not supported.
    pub fn make_current_surfaceless(self) -> (r: Result<PossiblyCurrentContext>)
        ensures
            r matches Err(e) && e == not_supported(surfaceless_message()),
    {
        Err(
            Error::from_kind(
                ErrorKind::NotSupported("surfaceless contexts are not supported with TRUEOS"),
            ),
        )
    }

    /// The client API of the context: GLES of no particular version.
    pub fn context_api(&self) -> (r: ContextApi)
        ensures
            r == ContextApi::Gles(None),
    {
        self.inner.context_api()
    }

    /// The priority of the context: medium.
    pub fn priority(&self) -> (r: Priority)
        ensures
            r == Priority::Medium,
    {
        Priority::Medium
    }

    /// The config the context was created with.
    pub fn config(&self) -> (r: Config)
        ensures
            r == self.config_spec(),
    {
        self.inner.config.clone()
    }

    /// The display the context was created on.
    pub fn display(&self) -> (r: Display)
        ensures
            r == self.display_spec(),
    {
        self.inner.display.clone()
    }

    /// The raw id of the context: its vGPU device handle.
    pub fn raw_context(&self) -> (r: RawContext)
        ensures
            r == RawContext::TrueOs(self@.device),
    {
        RawContext::TrueOs(self.inner.device)
    }
}

/// A TRUEOS vGPU context that could be current on the current thread.
#[derive(Debug)]
pub struct PossiblyCurrentContext {
    pub(crate) inner: ContextInner,
}

impl View for PossiblyCurrentContext {
    type V = ContextState;

    closed spec fn view(&self) -> ContextState {
        self.inner@
    }
}

impl PossiblyCurrentContext {
    /// The state of the context is that of its shared part.
    pub(crate) proof fn lemma_view_is_inner(&self)
        ensures
            self@ == self.inner@,
    {
    }

    /// The display the context was created on.
    pub closed spec fn display_spec(self) -> Display {
        self.inner.display_spec()
    }

    /// The config the context was created with.
    pub closed spec fn config_spec(self) -> Config {
        self.inner.config_spec()
    }

    /// Whether the context is current on the thread of `slot`.
    pub fn is_current(&self, slot: &CurrentContextSlot) -> (r: bool)
        ensures
            r == context_current(self@, slot@),
    {
        self.inner.is_current(slot)
    }

    /// The vGPU surface bound to this context, which making it not current
    /// asks the host to discard.
    pub fn current_surface(&self) -> (r: Option<u64>)
        ensures
            r == self@.current_surface,
            r != Some(0u64),
    {
        self.inner.current_surface()
    }

    /// Makes the context not current, given the return code of the host's
    /// discard of its bound vGPU surface, and returns it as not current.
    pub fn make_not_current(self, slot: &mut CurrentContextSlot, discard_rc: i32) -> (r: Result<
        NotCurrentContext,
    >)
        ensures
            ({
                let step = make_not_current_step(self@, old(slot)@, discard_rc);
                &&& final(slot)@ == step.1
                &&& match step.2 {
                    Ok(_) => r matches Ok(c) && c@ == step.0 && c.display_spec()
                        == self.display_spec() && c.config_spec() == self.config_spec(),
                    Err(e) => r matches Err(e2) && e2 == e,
                }
            }),
    {
        let mut inner = self.inner;
        inner.make_not_current(slot, discard_rc)?;
        Ok(NotCurrentContext { inner })
    }

    /// Makes the context not current in place, given the return code of the
    /// host's discard of its bound vGPU surface.
    pub fn make_not_current_in_place(&mut self, slot: &mut CurrentContextSlot, discard_rc: i32) -> (r:
        Result<()>)
        ensures
            (final(self)@, final(slot)@, r) == make_not_current_step(
                old(self)@,
                old(slot)@,
                discard_rc,
            ),
            final(self).display_spec() == old(self).display_spec(),
            final(self).config_spec() == old(self).config_spec(),
    {
        self.inner.make_not_current(slot, discard_rc)
    }

    /// Makes the context current with `surface`, given the host's
    /// acquisition of the surface's vGPU surface for this context's device.
    pub fn make_current<T: SurfaceTypeTrait>(
        &mut self,
        surface: &mut Surface<T>,
        slot: &mut CurrentContextSlot,
        acquire_rc: i32,
        info: crate::vgpu::SurfaceInfo,
    ) -> (r: Result<()>)
        ensures
            (final(self)@, final(surface)@, final(slot)@, r) == make_current_step(
                old(self)@,
                old(surface)@,
                old(slot)@,
                acquire_rc,
                info,
            ),
            final(self).display_spec() == old(self).display_spec(),
            final(self).config_spec() == old(self).config_spec(),
            final(surface).display_spec() == old(surface).display_spec(),
            final(surface).config_spec() == old(surface).config_spec(),
    {
        self.inner.make_current(surface, slot, acquire_rc, info)
    }

    /// Separate draw and read surfaces are not supported.
    pub fn make_current_draw_read<T: SurfaceTypeTrait>(
        &self,
        surface_draw: &Surface<T>,
        surface_read: &Surface<T>,
    ) -> (r: Result<()>)
        ensures
            r == Err::<(), Error>(not_supported(draw_read_message())),
    {
        Err(
            Error::from_kind(
                ErrorKind::NotSupported("make current draw read isn't supported with TRUEOS"),
            ),
        )
    }

    /// Contexts without a surface are not supported.
    pub fn make_current_surfaceless(&self) -> (r: Result<()>)
        ensures
            r == Err::<(), Error>(not_supported(surfaceless_message())),
    {
        Err(
            Error::from_kind(
                ErrorKind::NotSupported("surfaceless contexts are not supported with TRUEOS"),
            ),
        )
    }

    /// The client API of the context: GLES of no particular version.
    pub fn context_api(&self) -> (r: ContextApi)
        ensures
            r == ContextApi::Gles(None),
    {
        self.inner.context_api()
    }

    /// The priority of the context: medium.
    pub fn priority(&self) -> (r: Priority)
        ensures
            r == Priority::Medium,
    {
        Priority::Medium
    }

    /// The config the context was created with.
    pub fn config(&self) -> (r: Config)
        ensures
            r == self.config_spec(),
    {
        self.inner.config.clone()
    }

    /// The display the context was created on.
    pub fn display(&self) -> (r: Display)
        ensures
            r == self.display_spec(),
    {
        self.inner.display.clone()
    }

    /// The raw id of the context: its vGPU device handle.
    pub fn raw_context(&self) -> (r: RawContext)
        ensures
            r == RawContext::TrueOs(self@.device),
    {
        RawContext::TrueOs(self.inner.device)
    }
}

} // verus!
