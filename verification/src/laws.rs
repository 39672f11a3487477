//! Properties of the backend that span several operations.

use vstd::prelude::*;

use crate::config::{
    config_meets_template, has_window, offered_config, template_satisfiable, ConfigTemplate,
};
use crate::context::{
    attributes_error, context_current, make_current_step, make_not_current_step, released_slot,
    ContextApi, ContextAttributes, ContextState, Robustness,
};
use crate::error::{Error, ErrorKind};
use crate::handle::NativeWindow;
use crate::surface::{acquire_outcome, surface_current, BoundSurface, SurfaceState};
use crate::vgpu::{rc_result, SurfaceInfo, SURFACE_FORMAT_RGBA8_UNORM_SRGB};

verus! {

/// Every config found for a template gives what the template asks.
pub proof fn lemma_found_config_meets_template(t: ConfigTemplate)
    requires
        template_satisfiable(t),
    ensures
        config_meets_template(offered_config(), t),
{
}

/// A newly created context is not current on the thread it was created
/// on, whatever that thread's record held before.
pub proof fn lemma_new_context_not_current(device: u64, slot: Option<u64>)
    ensures
        !context_current(
            ContextState { device, current_surface: None },
            released_slot(slot, device),
        ),
        slot != Some(device) ==> released_slot(slot, device) == slot,
{
}

/// Making a context current never binds it to the null vGPU surface, and
/// making it not current leaves none bound.
pub proof fn lemma_bound_surface_never_null(
    ctx: ContextState,
    s: SurfaceState,
    slot: Option<u64>,
    rc: i32,
    info: SurfaceInfo,
)
    requires
        ctx.current_surface != Some(0u64),
    ensures
        make_current_step(ctx, s, slot, rc, info).0.current_surface != Some(0u64),
        make_not_current_step(ctx, slot, rc).0.current_surface != Some(0u64),
{
}

/// A successful make-current leaves the context current on the thread and
/// the surface current for the context.
pub proof fn lemma_make_current_makes_current(
    ctx: ContextState,
    s: SurfaceState,
    slot: Option<u64>,
    rc: i32,
    info: SurfaceInfo,
)
    requires
        make_current_step(ctx, s, slot, rc, info).3 is Ok,
    ensures
        ({
            let post = make_current_step(ctx, s, slot, rc, info);
            &&& context_current(post.0, post.2)
            &&& surface_current(post.1, post.0, post.2)
            &&& post.0.device == ctx.device
        }),
{
}

/// A failed make-current changes neither the context, nor the surface, nor
/// the thread's current context, and reports the acquisition's error.
pub proof fn lemma_failed_make_current_changes_nothing(
    ctx: ContextState,
    s: SurfaceState,
    slot: Option<u64>,
    rc: i32,
    info: SurfaceInfo,
)
    requires
        make_current_step(ctx, s, slot, rc, info).3 is Err,
    ensures
        ({
            let post = make_current_step(ctx, s, slot, rc, info);
            &&& post.0 == ctx
            &&& post.1 == s
            &&& post.2 == slot
            &&& acquire_outcome(rc, info) is Err
            &&& post.3 == Err::<(), crate::error::Error>(acquire_outcome(rc, info)->Err_0)
        }),
{
}

/// After a successful make-current the surface reports the size that the
/// host reported when it acquired the surface.
pub proof fn lemma_make_current_reads_back_size(
    ctx: ContextState,
    s: SurfaceState,
    slot: Option<u64>,
    rc: i32,
    info: SurfaceInfo,
)
    requires
        make_current_step(ctx, s, slot, rc, info).3 is Ok,
    ensures
        ({
            let post = make_current_step(ctx, s, slot, rc, info);
            &&& post.1.bound matches Some(b)
            &&& b.width == info.width && b.height == info.height && b.surface == info.surface
            &&& b.width != 0 && b.height != 0 && b.surface != 0
            &&& post.1.window_id == s.window_id
        }),
{
}

/// A successful make-not-current leaves the context not current on the
/// thread, and no surface current for it.
pub proof fn lemma_make_not_current_releases(ctx: ContextState, slot: Option<u64>, rc: i32)
    requires
        make_not_current_step(ctx, slot, rc).2 is Ok,
    ensures
        ({
            let post = make_not_current_step(ctx, slot, rc);
            &&& !context_current(post.0, post.1)
            &&& forall|s: SurfaceState| !surface_current(s, post.0, post.1)
        }),
{
}

/// Make-not-current unbinds the context's surface even when the host's
/// discard fails, so no surface is current for the context afterwards on
/// any thread; a failed discard leaves the thread's record as it was.
pub proof fn lemma_make_not_current_always_unbinds(ctx: ContextState, slot: Option<u64>, rc: i32)
    ensures
        ({
            let post = make_not_current_step(ctx, slot, rc);
            &&& post.0.current_surface is None
            &&& post.0.device == ctx.device
            &&& forall|s: SurfaceState, t: Option<u64>| !surface_current(s, post.0, t)
            &&& (post.2 is Err ==> post.1 == slot && ctx.current_surface is Some && rc != 0)
        }),
{
}

/// Making a context not current leaves the thread's record alone when
/// another context is current there.
pub proof fn lemma_make_not_current_keeps_other_context(
    ctx: ContextState,
    slot: Option<u64>,
    rc: i32,
)
    requires
        slot != Some(ctx.device),
    ensures
        make_not_current_step(ctx, slot, rc).1 == slot,
{
}

/// At most one context is current on a thread: two contexts current on the
/// same thread have the same device.
pub proof fn lemma_one_current_context_per_thread(
    a: ContextState,
    b: ContextState,
    slot: Option<u64>,
)
    requires
        context_current(a, slot),
        context_current(b, slot),
    ensures
        a.device == b.device,
{
}

/// Making one context current on a thread makes every context of another
/// device not current there.
pub proof fn lemma_make_current_displaces_other(
    other: ContextState,
    ctx: ContextState,
    s: SurfaceState,
    slot: Option<u64>,
    rc: i32,
    info: SurfaceInfo,
)
    requires
        other.device != ctx.device,
        make_current_step(ctx, s, slot, rc, info).3 is Ok,
    ensures
        !context_current(other, make_current_step(ctx, s, slot, rc, info).2),
{
}

/// A surface that is current for a context is current only while the
/// context itself is current.
pub proof fn lemma_surface_current_implies_context_current(
    s: SurfaceState,
    ctx: ContextState,
    slot: Option<u64>,
)
    requires
        surface_current(s, ctx, slot),
    ensures
        context_current(ctx, slot),
        ctx.current_surface is Some,
{
}

/// Making a context current on a thread where none is current and then
/// not current again, with both host calls succeeding, leaves the thread
/// with no current context and the context with no surface bound.
pub proof fn lemma_make_current_then_not_current_round_trip(
    ctx: ContextState,
    s: SurfaceState,
    rc: i32,
    info: SurfaceInfo,
)
    requires
        make_current_step(ctx, s, None, rc, info).3 is Ok,
    ensures
        ({
            let on = make_current_step(ctx, s, None, rc, info);
            let off = make_not_current_step(on.0, on.2, 0);
            &&& off.2 is Ok
            &&& off.1 is None
            &&& off.0 == ContextState { device: ctx.device, current_surface: None }
        }),
{
}

/// Config finding is complete: every template that the offered config
/// meets, that asks for window surfaces, asks for no particular sample count
/// and names a TRUEOS window or none, is satisfiable, so the offered config
/// is found for it.
pub proof fn lemma_config_finding_complete(t: ConfigTemplate)
    requires
        config_meets_template(offered_config(), t),
        has_window(t.config_surface_types@),
        t.num_samples is None,
        t.native_window matches Some(w) ==> w is Trueos,
    ensures
        template_satisfiable(t),
{
}

/// An acquisition succeeds exactly on a usable report: when the host
/// returned 0 and reported a nonzero handle, width and height, RGBA8 sRGB
/// pixels and rows of at least four bytes per pixel (or the largest pitch a
/// `u32` holds), making a context current succeeds and binds that handle
/// and size; with every other field usable, a pitch below that is
/// `BadSurface`.
pub proof fn lemma_acquire_accepts_any_wide_enough_pitch(
    ctx: ContextState,
    s: SurfaceState,
    slot: Option<u64>,
    info: SurfaceInfo,
)
    requires
        info.surface != 0,
        info.width != 0,
        info.height != 0,
        info.format == SURFACE_FORMAT_RGBA8_UNORM_SRGB,
    ensures
        (info.pitch as int) >= 4 * (info.width as int) || info.pitch == u32::MAX ==> {
            let post = make_current_step(ctx, s, slot, 0, info);
            &&& acquire_outcome(0, info) == Ok::<BoundSurface, Error>(
                BoundSurface { surface: info.surface, width: info.width, height: info.height },
            )
            &&& post.3 is Ok
            &&& post.0.current_surface == Some(info.surface)
            &&& post.1.bound == Some(
                BoundSurface { surface: info.surface, width: info.width, height: info.height },
            )
            &&& post.2 == Some(ctx.device)
        },
        (info.pitch as int) < 4 * (info.width as int) && info.pitch != u32::MAX ==> {
            &&& acquire_outcome(0, info) matches Err(e)
            &&& e.kind == ErrorKind::BadSurface
            &&& e.raw_code is None
        },
{
}

/// A failed discard is never swallowed: when a surface is bound and the
/// host's discard returned a nonzero code, make-not-current fails with the
/// error `check_rc` gives for that code, carrying the code, and leaves the
/// thread's record as it was; with nothing bound, or a zero code, it
/// succeeds.
pub proof fn lemma_failed_discard_is_reported(ctx: ContextState, slot: Option<u64>, rc: i32)
    ensures
        ctx.current_surface is Some && rc != 0 ==> {
            let post = make_not_current_step(ctx, slot, rc);
            &&& post.2 == rc_result(rc)
            &&& post.2 matches Err(e) && e.raw_code == Some(rc as i64)
            &&& post.1 == slot
        },
        ctx.current_surface is None || rc == 0 ==> make_not_current_step(ctx, slot, rc).2 is Ok,
{
}

/// A surface is current for a context only when the context's bound vGPU
/// surface is the one that surface acquired; so once a context is made
/// current with another surface, a surface that acquired a different
/// handle is no longer current for it.
pub proof fn lemma_only_the_bound_surface_is_current(
    s1: SurfaceState,
    ctx: ContextState,
    s2: SurfaceState,
    slot: Option<u64>,
    rc: i32,
    info: SurfaceInfo,
)
    ensures
        surface_current(s1, ctx, slot) ==> (s1.bound matches Some(b) && ctx.current_surface
            == Some(b.surface)),
        ({
            let post = make_current_step(ctx, s2, slot, rc, info);
            post.3 is Ok && (s1.bound matches Some(b1) && b1.surface != info.surface)
                ==> !surface_current(s1, post.0, post.2)
        }),
{
}

/// Context attributes are refused exactly when they ask for desktop OpenGL
/// or for any robustness; debug, profile, priority, release behavior and
/// sharing never refuse a context.
pub proof fn lemma_attributes_refused_only_for_opengl_or_robustness(a: ContextAttributes)
    ensures
        attributes_error(a) is Some <==> (a.api matches Some(ContextApi::OpenGl(_))
            || a.robustness != Robustness::NotRobust),
{
}

} // verus!
