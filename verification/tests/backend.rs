use glutin_trueos::config::{
    Api, ColorBufferType, ConfigSurfaceTypes, ConfigTemplate, RawConfig, template_is_satisfiable,
};
use glutin_trueos::context::{
    ContextApi, ContextAttributes, CurrentContextSlot, NotCurrentContext, Priority, RawContext,
    Robustness, Version,
};
use glutin_trueos::display::{Display, RawDisplay};
use glutin_trueos::error::{Error, ErrorKind};
use glutin_trueos::handle::{NativeDisplay, NativeWindow, TrueosDisplayHandle, TrueosWindowHandle};
use glutin_trueos::surface::{
    PbufferSurface, PixmapSurface, RawSurface, Surface, SurfaceAttributes, SurfaceType,
    SurfaceTypeTrait, SwapInterval, WindowSurface,
};
use glutin_trueos::vgpu::{check_rc, SurfaceInfo, CAPABILITIES_RENDER_PRESENT};

fn display(connection: u64) -> Display {
    Display::new(NativeDisplay::Trueos(TrueosDisplayHandle::new(connection).unwrap())).unwrap()
}

fn window(id: u32) -> NativeWindow {
    NativeWindow::Trueos(TrueosWindowHandle::new(id).unwrap())
}

fn good_template() -> ConfigTemplate {
    ConfigTemplate {
        color_buffer_type: ColorBufferType::Rgb { r_size: 8, g_size: 8, b_size: 8 },
        alpha_size: 8,
        depth_size: 0,
        stencil_size: 0,
        num_samples: None,
        min_swap_interval: None,
        max_swap_interval: None,
        config_surface_types: ConfigSurfaceTypes::window(),
        api: None,
        transparency: false,
        single_buffering: false,
        stereoscopy: None,
        float_pixels: false,
        max_pbuffer_width: None,
        max_pbuffer_height: None,
        native_window: None,
        hardware_accelerated: None,
    }
}

fn good_info(surface: u64) -> SurfaceInfo {
    SurfaceInfo { surface, bytes: 640 * 480 * 4, width: 640, height: 480, pitch: 2560, format: 1 }
}

fn setup() -> (Display, NotCurrentContext, Surface<WindowSurface>) {
    let d = display(11);
    let configs = d.find_configs(good_template()).unwrap();
    let config = &configs[0];
    let ctx = d.create_context(config, &ContextAttributes::new(), &mut CurrentContextSlot::new(), 0, 77).unwrap();
    let attrs = SurfaceAttributes::<WindowSurface>::new(Some(window(5)));
    let surface = d.create_window_surface(config, &attrs).unwrap();
    (d, ctx, surface)
}

fn not_supported(e: &Error) -> &'static str {
    match e.kind {
        ErrorKind::NotSupported(what) => what,
        other => panic!("expected NotSupported, got {:?}", other),
    }
}

#[test]
fn check_rc_zero_is_ok() {
    assert_eq!(check_rc(0), Ok(()));
}

#[test]
fn check_rc_maps_each_code() {
    let cases = [
        (-5, ErrorKind::BadSurface),
        (-9, ErrorKind::BadContext),
        (-12, ErrorKind::OutOfMemory),
        (-13, ErrorKind::BadAccess),
        (-16, ErrorKind::BadAccess),
        (-19, ErrorKind::BadDisplay),
        (-32, ErrorKind::ContextLost),
        (-95, ErrorKind::NotSupported("operation not supported by the TRUEOS vGPU host")),
        (-1, ErrorKind::Misc),
        (7, ErrorKind::Misc),
        (i32::MIN, ErrorKind::Misc),
    ];
    for (rc, kind) in cases {
        let e = check_rc(rc).unwrap_err();
        assert_eq!(e.raw_code(), Some(rc as i64));
        assert_eq!(e.error_kind(), kind);
    }
}

#[test]
fn display_from_trueos_handle_keeps_connection() {
    let d = display(0xdead);
    assert_eq!(d.raw_display(), RawDisplay::TrueOs(0xdead));
    assert_eq!(d.connection(), 0xdead);
    assert_eq!(d.version_string(), "TRUEOS vGPU UI4");
    assert!(d.supported_features().is_empty());
    assert_eq!(d.supported_features().bits(), 0);
}

#[test]
fn display_from_foreign_handle_is_not_supported() {
    let e = Display::new(NativeDisplay::Foreign).unwrap_err();
    assert_eq!(not_supported(&e), "provided native display is not supported");
    assert_eq!(e.raw_code(), None);
}

#[test]
fn zero_handles_are_refused() {
    assert!(TrueosDisplayHandle::new(0).is_none());
    assert!(TrueosWindowHandle::new(0).is_none());
    assert_eq!(TrueosWindowHandle::new(3).unwrap().window(), 3);
    assert_eq!(TrueosDisplayHandle::new(4).unwrap().connection(), 4);
}

#[test]
fn default_like_template_finds_one_config() {
    let d = display(1);
    let configs = d.find_configs(good_template()).unwrap();
    assert_eq!(configs.len(), 1);
    assert_eq!(configs[0].display().raw_display(), RawDisplay::TrueOs(1));
}

#[test]
fn found_config_reports_fixed_attributes() {
    let d = display(1);
    let configs = d.find_configs(good_template()).unwrap();
    let c = &configs[0];
    assert_eq!(c.color_buffer_type(), Some(ColorBufferType::Rgb { r_size: 8, g_size: 8, b_size: 8 }));
    assert!(!c.float_pixels());
    assert_eq!(c.alpha_size(), 8);
    assert_eq!(c.depth_size(), 0);
    assert_eq!(c.stencil_size(), 0);
    assert_eq!(c.num_samples(), 0);
    assert!(c.srgb_capable());
    assert!(c.hardware_accelerated());
    assert_eq!(c.config_surface_types(), ConfigSurfaceTypes::window());
    assert_eq!(c.supports_transparency(), Some(true));
    assert_eq!(c.api(), Api::gles2());
    assert_eq!(c.raw_config(), RawConfig::TrueOs(0));
}

#[test]
fn found_config_meets_the_template_it_was_found_for() {
    // A template at the edge of what the host offers: alpha 8, GLES2 among
    // the APIs, a TRUEOS window, hardware acceleration asked for.
    let mut t = good_template();
    t.alpha_size = 8;
    t.api = Some(Api::gles2().union(Api::gles3()));
    t.native_window = Some(window(9));
    t.hardware_accelerated = Some(true);
    t.stereoscopy = Some(false);
    let d = display(1);
    let configs = d.find_configs(t).unwrap();
    assert_eq!(configs.len(), 1);
    let c = &configs[0];
    assert_eq!(c.color_buffer_type(), Some(t.color_buffer_type));
    assert!(t.alpha_size <= c.alpha_size());
    assert!(c.config_surface_types().contains(t.config_surface_types));
    assert!(t.api.unwrap().contains(c.api()));
}

#[test]
fn templates_the_host_cannot_meet_find_nothing() {
    let d = display(1);
    let mut variants: Vec<ConfigTemplate> = Vec::new();
    let mut t = good_template();
    t.color_buffer_type = ColorBufferType::Rgb { r_size: 5, g_size: 6, b_size: 5 };
    variants.push(t);
    let mut t = good_template();
    t.color_buffer_type = ColorBufferType::Luminance(8);
    variants.push(t);
    let mut t = good_template();
    t.alpha_size = 9;
    variants.push(t);
    let mut t = good_template();
    t.depth_size = 24;
    variants.push(t);
    let mut t = good_template();
    t.stencil_size = 8;
    variants.push(t);
    let mut t = good_template();
    t.num_samples = Some(4);
    variants.push(t);
    let mut t = good_template();
    t.num_samples = Some(0);
    variants.push(t);
    let mut t = good_template();
    t.float_pixels = true;
    variants.push(t);
    let mut t = good_template();
    t.single_buffering = true;
    variants.push(t);
    let mut t = good_template();
    t.stereoscopy = Some(true);
    variants.push(t);
    let mut t = good_template();
    t.hardware_accelerated = Some(false);
    variants.push(t);
    let mut t = good_template();
    t.config_surface_types = ConfigSurfaceTypes::pbuffer();
    variants.push(t);
    let mut t = good_template();
    t.config_surface_types = ConfigSurfaceTypes::window().union(ConfigSurfaceTypes::pixmap());
    variants.push(t);
    let mut t = good_template();
    t.config_surface_types = ConfigSurfaceTypes::empty();
    variants.push(t);
    let mut t = good_template();
    t.api = Some(Api::opengl());
    variants.push(t);
    let mut t = good_template();
    t.api = Some(Api::gles3());
    variants.push(t);
    let mut t = good_template();
    t.native_window = Some(NativeWindow::Foreign);
    variants.push(t);
    for t in variants {
        assert!(!template_is_satisfiable(&t), "{:?}", t);
        assert_eq!(d.find_configs(t).unwrap().len(), 0);
    }
}

#[test]
fn templates_within_the_offer_are_satisfiable() {
    let mut t = good_template();
    t.alpha_size = 0;
    assert!(template_is_satisfiable(&t));
    t.hardware_accelerated = Some(true);
    t.stereoscopy = Some(false);
    assert!(template_is_satisfiable(&t));
    t.api = Some(Api::gles2());
    assert!(template_is_satisfiable(&t));
    t.native_window = Some(window(1));
    assert!(template_is_satisfiable(&t));
    t.transparency = true;
    assert!(template_is_satisfiable(&t));
    // Unknown surface type bits are ignored, as with the flag set's complement.
    t.config_surface_types = ConfigSurfaceTypes::from_bits_retain(0b1000_0001);
    assert!(template_is_satisfiable(&t));
}

#[test]
fn surface_type_flags_compose() {
    let all = ConfigSurfaceTypes::window().union(ConfigSurfaceTypes::pixmap()).union(ConfigSurfaceTypes::pbuffer());
    assert_eq!(all.bits(), 0b111);
    assert_eq!(ConfigSurfaceTypes::window().complement().bits(), 0b110);
    assert!(all.contains(ConfigSurfaceTypes::pixmap()));
    assert!(all.intersection(ConfigSurfaceTypes::empty()).is_empty());
    assert_eq!(Api::opengl().union(Api::gles1()).bits(), 0b11);
}

#[test]
fn context_device_request_asks_for_render_and_present() {
    let d = display(1);
    assert_eq!(d.context_device_request(&ContextAttributes::new()), Ok(CAPABILITIES_RENDER_PRESENT));
    assert_eq!(CAPABILITIES_RENDER_PRESENT, (1 << 4) | (1 << 6));
    let mut a = ContextAttributes::new();
    a.api = Some(ContextApi::Gles(Some(Version { major: 3, minor: 0 })));
    assert_eq!(d.context_device_request(&a), Ok(0x50));
}

#[test]
fn opengl_context_is_not_supported() {
    let d = display(1);
    let configs = d.find_configs(good_template()).unwrap();
    let mut a = ContextAttributes::new();
    a.api = Some(ContextApi::OpenGl(None));
    a.robustness = Robustness::RobustLoseContextOnReset;
    // The API is checked before the robustness, and before the host's code.
    let e = d.create_context(&configs[0], &a, &mut CurrentContextSlot::new(), -12, 0).unwrap_err();
    assert_eq!(not_supported(&e), "only gles is supported with TRUEOS");
}

#[test]
fn robust_context_is_not_supported() {
    let d = display(1);
    let configs = d.find_configs(good_template()).unwrap();
    for r in [Robustness::NoError, Robustness::RobustNoResetNotification, Robustness::RobustLoseContextOnReset] {
        let mut a = ContextAttributes::new();
        a.robustness = r;
        let e = d.create_context(&configs[0], &a, &mut CurrentContextSlot::new(), 0, 3).unwrap_err();
        assert_eq!(not_supported(&e), "robustness is not supported with TRUEOS");
    }
}

#[test]
fn failed_device_open_reports_the_host_code() {
    let d = display(1);
    let configs = d.find_configs(good_template()).unwrap();
    let e = d.create_context(&configs[0], &ContextAttributes::new(), &mut CurrentContextSlot::new(), -12, 3).unwrap_err();
    assert_eq!(e.error_kind(), ErrorKind::OutOfMemory);
    assert_eq!(e.raw_code(), Some(-12));
}

#[test]
fn created_context_reports_its_device_and_api() {
    let (_d, ctx, _s) = setup();
    assert_eq!(ctx.raw_context(), RawContext::TrueOs(77));
    assert_eq!(ctx.context_api(), ContextApi::Gles(None));
    assert_eq!(ctx.priority(), Priority::Medium);
    assert_eq!(ctx.display().raw_display(), RawDisplay::TrueOs(11));
    assert_eq!(ctx.config().raw_config(), RawConfig::TrueOs(0));
}

#[test]
fn window_surface_needs_a_trueos_window() {
    let d = display(1);
    let configs = d.find_configs(good_template()).unwrap();
    let e = d.create_window_surface(&configs[0], &SurfaceAttributes::new(None)).unwrap_err();
    assert_eq!(not_supported(&e), "provided native window is not supported");
    let e = d
        .create_window_surface(&configs[0], &SurfaceAttributes::new(Some(NativeWindow::Foreign)))
        .unwrap_err();
    assert_eq!(not_supported(&e), "provided native window is not supported");
}

#[test]
fn pixmap_and_pbuffer_surfaces_are_not_supported() {
    let d = display(1);
    let configs = d.find_configs(good_template()).unwrap();
    let e = d.create_pixmap_surface(&configs[0], &SurfaceAttributes::<PixmapSurface>::new(Some(window(1)))).unwrap_err();
    assert_eq!(not_supported(&e), "pixmaps are not supported with TRUEOS");
    let e = d.create_pbuffer_surface(&configs[0], &SurfaceAttributes::<PbufferSurface>::new(None)).unwrap_err();
    assert_eq!(not_supported(&e), "pbuffers are not supported with TRUEOS");
}

#[test]
fn new_window_surface_is_unbound() {
    let (_d, _ctx, s) = setup();
    assert_eq!(s.width(), None);
    assert_eq!(s.height(), None);
    assert_eq!(s.window_id(), 5);
    assert_eq!(s.raw_surface(), RawSurface::TrueOs(5));
    assert_eq!(s.buffer_age(), 0);
    assert!(!s.is_single_buffered());
    assert_eq!(s.display().raw_display(), RawDisplay::TrueOs(11));
    assert_eq!(WindowSurface::surface_type(), SurfaceType::Window);
    assert_eq!(PbufferSurface::surface_type(), SurfaceType::Pbuffer);
    assert_eq!(PixmapSurface::surface_type(), SurfaceType::Pixmap);
}

#[test]
fn make_current_makes_context_and_surface_current() {
    let (_d, ctx, mut s) = setup();
    let mut slot = CurrentContextSlot::new();
    assert_eq!(slot.current_device(), None);
    let pc = ctx.make_current(&mut s, &mut slot, 0, good_info(900)).unwrap();
    assert!(pc.is_current(&slot));
    assert!(s.is_current(&pc, &slot));
    assert!(s.is_current_draw(&pc, &slot));
    assert!(s.is_current_read(&pc, &slot));
    assert_eq!(pc.current_surface(), Some(900));
    assert_eq!(slot.current_device(), Some(77));
    assert_eq!(pc.raw_context(), RawContext::TrueOs(77));
}

#[test]
fn acquired_size_reads_back() {
    let (_d, _ctx, mut s) = setup();
    assert_eq!(s.acquire(0, good_info(3)), Ok(3));
    assert_eq!(s.width(), Some(640));
    assert_eq!(s.height(), Some(480));
    let info = SurfaceInfo { surface: 4, bytes: 0, width: 1, height: 2, pitch: 4, format: 1 };
    assert_eq!(s.acquire(0, info), Ok(4));
    assert_eq!(s.width(), Some(1));
    assert_eq!(s.height(), Some(2));
}

#[test]
fn acquire_refuses_unusable_reports() {
    let (_d, _ctx, mut s) = setup();
    let base = good_info(3);
    let mut bad = Vec::new();
    let mut i = base;
    i.surface = 0;
    bad.push(i);
    let mut i = base;
    i.width = 0;
    bad.push(i);
    let mut i = base;
    i.height = 0;
    bad.push(i);
    let mut i = base;
    i.pitch = 2559;
    bad.push(i);
    let mut i = base;
    i.format = 2;
    bad.push(i);
    for info in bad {
        let e = s.acquire(0, info).unwrap_err();
        assert_eq!(e.error_kind(), ErrorKind::BadSurface);
        assert_eq!(e.raw_code(), None);
        assert_eq!(s.width(), None);
    }
}

#[test]
fn acquire_pitch_check_saturates() {
    let (_d, _ctx, mut s) = setup();
    // 4 * width overflows a u32: the needed pitch saturates at u32::MAX.
    let info = SurfaceInfo { surface: 8, bytes: 0, width: 0x4000_0000, height: 1, pitch: u32::MAX, format: 1 };
    assert_eq!(s.acquire(0, info), Ok(8));
    let info = SurfaceInfo { surface: 8, bytes: 0, width: 0x4000_0000, height: 1, pitch: u32::MAX - 1, format: 1 };
    assert_eq!(s.acquire(0, info).unwrap_err().error_kind(), ErrorKind::BadSurface);
}

#[test]
fn acquire_reports_host_code_before_the_report() {
    let (_d, _ctx, mut s) = setup();
    let e = s.acquire(-19, good_info(3)).unwrap_err();
    assert_eq!(e.error_kind(), ErrorKind::BadDisplay);
    assert_eq!(e.raw_code(), Some(-19));
    assert_eq!(s.width(), None);
}

#[test]
fn failed_make_current_changes_nothing() {
    let (_d, ctx, mut s) = setup();
    let mut slot = CurrentContextSlot::new();
    let pc = ctx.treat_as_possibly_current();
    let mut pc = pc;
    let e = pc.make_current(&mut s, &mut slot, -9, good_info(1)).unwrap_err();
    assert_eq!(e.error_kind(), ErrorKind::BadContext);
    assert!(!pc.is_current(&slot));
    assert_eq!(pc.current_surface(), None);
    assert_eq!(s.width(), None);
    assert_eq!(slot.current_device(), None);
}

#[test]
fn failed_make_current_of_not_current_context_reports_error() {
    let (_d, ctx, mut s) = setup();
    let mut slot = CurrentContextSlot::new();
    let e = ctx.make_current(&mut s, &mut slot, 0, SurfaceInfo::default()).unwrap_err();
    assert_eq!(e.error_kind(), ErrorKind::BadSurface);
    assert_eq!(slot.current_device(), None);
}

#[test]
fn make_not_current_releases_context_and_surface() {
    let (_d, ctx, mut s) = setup();
    let mut slot = CurrentContextSlot::new();
    let pc = ctx.make_current(&mut s, &mut slot, 0, good_info(900)).unwrap();
    let nc = pc.make_not_current(&mut slot, 0).unwrap();
    assert_eq!(slot.current_device(), None);
    assert_eq!(nc.raw_context(), RawContext::TrueOs(77));
    let pc = nc.treat_as_possibly_current();
    assert!(!pc.is_current(&slot));
    assert!(!s.is_current(&pc, &slot));
    assert_eq!(pc.current_surface(), None);
    // The surface keeps the size of its last acquisition.
    assert_eq!(s.width(), Some(640));
}

#[test]
fn failed_discard_unbinds_but_keeps_thread_record() {
    let (_d, ctx, mut s) = setup();
    let mut slot = CurrentContextSlot::new();
    let mut pc = ctx.make_current(&mut s, &mut slot, 0, good_info(900)).unwrap();
    let e = pc.make_not_current_in_place(&mut slot, -32).unwrap_err();
    assert_eq!(e.error_kind(), ErrorKind::ContextLost);
    assert_eq!(e.raw_code(), Some(-32));
    assert_eq!(pc.current_surface(), None);
    assert!(pc.is_current(&slot));
    assert!(!s.is_current(&pc, &slot));
    // With nothing bound any more, the discard code is not looked at.
    assert_eq!(pc.make_not_current_in_place(&mut slot, -32), Ok(()));
    assert!(!pc.is_current(&slot));
}

#[test]
fn make_not_current_of_unbound_context_ignores_discard_code() {
    let (_d, ctx, _s) = setup();
    let mut slot = CurrentContextSlot::new();
    let nc = ctx.treat_as_possibly_current().make_not_current(&mut slot, -5).unwrap();
    assert_eq!(nc.raw_context(), RawContext::TrueOs(77));
}

#[test]
fn one_current_context_per_thread() {
    let d = display(11);
    let configs = d.find_configs(good_template()).unwrap();
    let config = &configs[0];
    let a = d.create_context(config, &ContextAttributes::new(), &mut CurrentContextSlot::new(), 0, 1).unwrap();
    let b = d.create_context(config, &ContextAttributes::new(), &mut CurrentContextSlot::new(), 0, 2).unwrap();
    let mut sa = d.create_window_surface(config, &SurfaceAttributes::new(Some(window(1)))).unwrap();
    let mut sb = d.create_window_surface(config, &SurfaceAttributes::new(Some(window(2)))).unwrap();
    let mut slot = CurrentContextSlot::new();
    let mut a = a.make_current(&mut sa, &mut slot, 0, good_info(10)).unwrap();
    assert!(a.is_current(&slot));
    let b = b.make_current(&mut sb, &mut slot, 0, good_info(20)).unwrap();
    assert!(b.is_current(&slot));
    assert!(!a.is_current(&slot));
    assert!(!sa.is_current(&a, &slot));
    // Making the displaced context not current leaves the other current.
    assert_eq!(a.make_not_current_in_place(&mut slot, 0), Ok(()));
    assert!(b.is_current(&slot));
    assert!(sb.is_current(&b, &slot));
}

#[test]
fn round_trip_leaves_thread_without_context() {
    let (_d, ctx, mut s) = setup();
    let mut slot = CurrentContextSlot::new();
    let mut pc = ctx.make_current(&mut s, &mut slot, 0, good_info(1)).unwrap();
    pc.make_not_current_in_place(&mut slot, 0).unwrap();
    assert_eq!(slot.current_device(), None);
    assert_eq!(pc.current_surface(), None);
    // Current again, with a new vGPU surface.
    pc.make_current(&mut s, &mut slot, 0, good_info(2)).unwrap();
    assert!(s.is_current(&pc, &slot));
    assert_eq!(pc.current_surface(), Some(2));
}

#[test]
fn unsupported_context_operations_fail() {
    let (_d, ctx, s) = setup();
    let pc = ctx.treat_as_possibly_current();
    let e = pc.make_current_draw_read(&s, &s).unwrap_err();
    assert_eq!(not_supported(&e), "make current draw read isn't supported with TRUEOS");
    let e = pc.make_current_surfaceless().unwrap_err();
    assert_eq!(not_supported(&e), "surfaceless contexts are not supported with TRUEOS");
    assert_eq!(pc.priority(), Priority::Medium);
    assert_eq!(pc.context_api(), ContextApi::Gles(None));
    let nc = pc.make_not_current(&mut CurrentContextSlot::new(), 0).unwrap();
    let e = nc.make_current_draw_read(&s, &s).unwrap_err();
    assert_eq!(not_supported(&e), "make current draw read isn't supported with TRUEOS");
    let (_d, ctx, _s) = setup();
    let e = ctx.make_current_surfaceless().unwrap_err();
    assert_eq!(not_supported(&e), "surfaceless contexts are not supported with TRUEOS");
}

#[test]
fn swap_and_swap_interval() {
    let (_d, ctx, s) = setup();
    let pc = ctx.treat_as_possibly_current();
    assert_eq!(s.swap_buffers(&pc), Ok(()));
    let e = s.set_swap_interval(&pc, SwapInterval::Wait(1)).unwrap_err();
    assert_eq!(not_supported(&e), "swap intervals are not supported with TRUEOS");
    let e = s.set_swap_interval(&pc, SwapInterval::DontWait).unwrap_err();
    assert!(e.not_supported());
    s.resize(&pc, 10, 10);
    assert_eq!(s.width(), None);
}

#[test]
fn errors_built_from_kinds() {
    let e = Error::from_kind(ErrorKind::BadMatch);
    assert_eq!(e.raw_code(), None);
    assert_eq!(e.raw_os_message(), None);
    assert!(!e.not_supported());
    let e = Error::new(Some(-3), Some(String::from("lost")), ErrorKind::Misc);
    assert_eq!(e.raw_os_message(), Some("lost"));
    assert_eq!(e.raw_code(), Some(-3));
    assert_eq!(e.error_kind(), ErrorKind::Misc);
}

#[test]
fn new_context_clears_stale_record_of_its_device() {
    let d = display(11);
    let configs = d.find_configs(good_template()).unwrap();
    let config = &configs[0];
    let mut slot = CurrentContextSlot::new();
    let old = d.create_context(config, &ContextAttributes::new(), &mut slot, 0, 5).unwrap();
    let mut s = d.create_window_surface(config, &SurfaceAttributes::new(Some(window(1)))).unwrap();
    let old = old.make_current(&mut s, &mut slot, 0, good_info(10)).unwrap();
    assert_eq!(slot.current_device(), Some(5));
    // Dropped while current: the record still names device 5.
    drop(old);
    assert_eq!(slot.current_device(), Some(5));
    // A failed creation leaves the record alone.
    assert!(d.create_context(config, &ContextAttributes::new(), &mut slot, -12, 5).is_err());
    assert_eq!(slot.current_device(), Some(5));
    // The host hands out device 5 again.
    let fresh = d.create_context(config, &ContextAttributes::new(), &mut slot, 0, 5).unwrap();
    assert_eq!(slot.current_device(), None);
    assert!(!fresh.treat_as_possibly_current().is_current(&slot));
}

#[test]
fn new_context_keeps_record_of_another_device() {
    let d = display(11);
    let configs = d.find_configs(good_template()).unwrap();
    let config = &configs[0];
    let mut slot = CurrentContextSlot::new();
    let a = d.create_context(config, &ContextAttributes::new(), &mut slot, 0, 1).unwrap();
    let mut s = d.create_window_surface(config, &SurfaceAttributes::new(Some(window(1)))).unwrap();
    let a = a.make_current(&mut s, &mut slot, 0, good_info(10)).unwrap();
    let b = d.create_context(config, &ContextAttributes::new(), &mut slot, 0, 2).unwrap();
    assert!(a.is_current(&slot));
    assert!(!b.treat_as_possibly_current().is_current(&slot));
}
