//! Config picking: the TRUEOS vGPU host offers a single configuration.

use vstd::prelude::*;

use crate::display::Display;
use crate::error::Result;
use crate::handle::NativeWindow;

verus! {

/// The layout of a color buffer.
#[derive(Debug, Clone, Copy, PartialEq, Eq)]
pub enum ColorBufferType {
    /// Red, green and blue channels of the given sizes in bits.
    Rgb { r_size: u8, g_size: u8, b_size: u8 },
    /// A single luminance channel of the given size in bits.
    Luminance(u8),
}

/// The bit of [`ConfigSurfaceTypes::window`].
pub const SURFACE_TYPE_WINDOW: u8 = 0b001;
/// The bit of [`ConfigSurfaceTypes::pixmap`].
pub const SURFACE_TYPE_PIXMAP: u8 = 0b010;
/// The bit of [`ConfigSurfaceTypes::pbuffer`].
pub const SURFACE_TYPE_PBUFFER: u8 = 0b100;
/// All the surface type bits that have a meaning.
pub const SURFACE_TYPE_ALL: u8 = 0b111;

/// The kinds of surfaces a config can render to, as a set of flag bits.
#[derive(Debug, Clone, Copy, PartialEq, Eq)]
pub struct ConfigSurfaceTypes {
    bits: u8,
}

impl View for ConfigSurfaceTypes {
    type V = u8;

    closed spec fn view(&self) -> u8 {
        self.bits
    }
}

impl ConfigSurfaceTypes {
    /// The set of the given bits, kept as they are.
    pub fn from_bits_retain(bits: u8) -> (r: ConfigSurfaceTypes)
        ensures
            r@ == bits,
    {
        ConfigSurfaceTypes { bits }
    }

    /// The empty set.
    pub fn empty() -> (r: ConfigSurfaceTypes)
        ensures
            r@ == 0,
    {
        ConfigSurfaceTypes { bits: 0 }
    }

    /// Window surfaces.
    pub fn window() -> (r: ConfigSurfaceTypes)
        ensures
            r@ == SURFACE_TYPE_WINDOW,
    {
        ConfigSurfaceTypes { bits: SURFACE_TYPE_WINDOW }
    }

    /// Pixmap surfaces.
    pub fn pixmap() -> (r: ConfigSurfaceTypes)
        ensures
            r@ == SURFACE_TYPE_PIXMAP,
    {
        ConfigSurfaceTypes { bits: SURFACE_TYPE_PIXMAP }
    }

    /// Pbuffer surfaces.
    pub fn pbuffer() -> (r: ConfigSurfaceTypes)
        ensures
            r@ == SURFACE_TYPE_PBUFFER,
    {
        ConfigSurfaceTypes { bits: SURFACE_TYPE_PBUFFER }
    }

    /// The flag bits.
    pub fn bits(&self) -> (r: u8)
        ensures
            r == self@,
    {
        self.bits
    }

    /// The union of two sets.
    pub fn union(self, other: ConfigSurfaceTypes) -> (r: ConfigSurfaceTypes)
        ensures
            r@ == self@ | other@,
    {
        ConfigSurfaceTypes { bits: self.bits | other.bits }
    }

    /// The intersection of two sets.
    pub fn intersection(self, other: ConfigSurfaceTypes) -> (r: ConfigSurfaceTypes)
        ensures
            r@ == self@ & other@,
    {
        ConfigSurfaceTypes { bits: self.bits & other.bits }
    }

    /// The meaningful bits that are not in this set.
    pub fn complement(self) -> (r: ConfigSurfaceTypes)
        ensures
            r@ == !self@ & SURFACE_TYPE_ALL,
    {
        ConfigSurfaceTypes { bits: !self.bits & SURFACE_TYPE_ALL }
    }

    /// Whether every bit of `other` is in this set.
    pub fn contains(&self, other: ConfigSurfaceTypes) -> (r: bool)
        ensures
            r == (self@ & other@ == other@),
    {
        self.bits & other.bits == other.bits
    }

    /// Whether the set is empty.
    pub fn is_empty(&self) -> (r: bool)
        ensures
            r == (self@ == 0),
    {
        self.bits == 0
    }
}

/// The bit of [`Api::opengl`].
pub const API_OPENGL: u8 = 0b0001;
/// The bit of [`Api::gles1`].
pub const API_GLES1: u8 = 0b0010;
/// The bit of [`Api::gles2`].
pub const API_GLES2: u8 = 0b0100;
/// The bit of [`Api::gles3`].
pub const API_GLES3: u8 = 0b1000;

/// The client APIs a config supports, as a set of flag bits.
#[derive(Debug, Clone, Copy, PartialEq, Eq)]
pub struct Api {
    bits: u8,
}

impl View for Api {
    type V = u8;

    closed spec fn view(&self) -> u8 {
        self.bits
    }
}

impl Api {
    /// The set of the given bits, kept as they are.
    pub fn from_bits_retain(bits: u8) -> (r: Api)
        ensures
            r@ == bits,
    {
        Api { bits }
    }

    /// Desktop OpenGL.
    pub fn opengl() -> (r: Api)
        ensures
            r@ == API_OPENGL,
    {
        Api { bits: API_OPENGL }
    }

    /// OpenGL ES 1.
    pub fn gles1() -> (r: Api)
        ensures
            r@ == API_GLES1,
    {
        Api { bits: API_GLES1 }
    }

    /// OpenGL ES 2.
    pub fn gles2() -> (r: Api)
        ensures
            r@ == API_GLES2,
    {
        Api { bits: API_GLES2 }
    }

    /// OpenGL ES 3.
    pub fn gles3() -> (r: Api)
        ensures
            r@ == API_GLES3,
    {
        Api { bits: API_GLES3 }
    }

    /// The flag bits.
    pub fn bits(&self) -> (r: u8)
        ensures
            r == self@,
    {
        self.bits
    }

    /// The union of two sets.
    pub fn union(self, other: Api) -> (r: Api)
        ensures
            r@ == self@ | other@,
    {
        Api { bits: self.bits | other.bits }
    }

    /// Whether every bit of `other` is in this set.
    pub fn contains(&self, other: Api) -> (r: bool)
        ensures
            r == (self@ & other@ == other@),
    {
        self.bits & other.bits == other.bits
    }
}

/// Whether the surface type bits `bits` include window surfaces.
pub open spec fn has_window(bits: u8) -> bool {
    bits % 2 == 1
}

/// Whether the surface type bits `bits` include pixmap surfaces.
pub open spec fn has_pixmap(bits: u8) -> bool {
    (bits / 2) % 2 == 1
}

/// Whether the surface type bits `bits` include pbuffer surfaces.
pub open spec fn has_pbuffer(bits: u8) -> bool {
    (bits / 4) % 2 == 1
}

/// Whether the API bits `bits` include desktop OpenGL.
pub open spec fn has_opengl(bits: u8) -> bool {
    bits % 2 == 1
}

/// Whether the API bits `bits` include OpenGL ES 1.
pub open spec fn has_gles1(bits: u8) -> bool {
    (bits / 2) % 2 == 1
}

/// Whether the API bits `bits` include OpenGL ES 2.
pub open spec fn has_gles2(bits: u8) -> bool {
    (bits / 4) % 2 == 1
}

/// Whether the API bits `bits` include OpenGL ES 3.
pub open spec fn has_gles3(bits: u8) -> bool {
    (bits / 8) % 2 == 1
}

/// What a caller asks of a config.
#[derive(Debug, Clone, Copy, PartialEq, Eq)]
pub struct ConfigTemplate {
    /// The layout of the color buffer.
    pub color_buffer_type: ColorBufferType,
    /// The least number of alpha bits.
    pub alpha_size: u8,
    /// The least number of depth bits.
    pub depth_size: u8,
    /// The least number of stencil bits.
    pub stencil_size: u8,
    /// The number of samples for multisampling, if it is asked for.
    pub num_samples: Option<u8>,
    /// The least swap interval.
    pub min_swap_interval: Option<u16>,
    /// The greatest swap interval.
    pub max_swap_interval: Option<u16>,
    /// The kinds of surfaces the config must render to.
    pub config_surface_types: ConfigSurfaceTypes,
    /// The client APIs of which the config must support one.
    pub api: Option<Api>,
    /// Whether a transparent surface is asked for.
    pub transparency: bool,
    /// Whether a single buffered surface is asked for.
    pub single_buffering: bool,
    /// Whether stereoscopy is asked for.
    pub stereoscopy: Option<bool>,
    /// Whether floating point pixels are asked for.
    pub float_pixels: bool,
    /// The greatest width of a pbuffer.
    pub max_pbuffer_width: Option<u32>,
    /// The greatest height of a pbuffer.
    pub max_pbuffer_height: Option<u32>,
    /// The native window the config must render to, if any.
    pub native_window: Option<NativeWindow>,
    /// Whether hardware acceleration is asked for, or refused.
    pub hardware_accelerated: Option<bool>,
}

/// The attributes a config reports.
pub struct ConfigAttributes {
    /// The layout of the color buffer.
    pub color_buffer_type: ColorBufferType,
    /// Whether the pixels are floating point.
    pub float_pixels: bool,
    /// The number of alpha bits.
    pub alpha_size: u8,
    /// The number of depth bits.
    pub depth_size: u8,
    /// The number of stencil bits.
    pub stencil_size: u8,
    /// The number of samples for multisampling.
    pub num_samples: u8,
    /// Whether the config is sRGB capable.
    pub srgb_capable: bool,
    /// Whether the config is hardware accelerated.
    pub hardware_accelerated: bool,
    /// The kinds of surfaces the config renders to, as flag bits.
    pub config_surface_types: u8,
    /// Whether the config supports transparency.
    pub supports_transparency: Option<bool>,
    /// The client APIs the config supports, as flag bits.
    pub api: u8,
    /// Whether the config's surfaces are single buffered.
    pub single_buffered: bool,
    /// Whether the config renders stereoscopically.
    pub stereoscopy: bool,
}

/// The color buffer layout of the host's configuration: RGB, 8 bits each.
pub open spec fn offered_color_buffer_type() -> ColorBufferType {
    ColorBufferType::Rgb { r_size: 8, g_size: 8, b_size: 8 }
}

/// The one configuration the host offers: an RGBA8 window surface with an
/// 8 bit alpha channel, no depth, stencil or multisampling, sRGB capable,
/// hardware accelerated, double buffered, GLES2.
pub open spec fn offered_config() -> ConfigAttributes {
    ConfigAttributes {
        color_buffer_type: offered_color_buffer_type(),
        float_pixels: false,
        alpha_size: 8,
        depth_size: 0,
        stencil_size: 0,
        num_samples: 0,
        srgb_capable: true,
        hardware_accelerated: true,
        config_surface_types: SURFACE_TYPE_WINDOW,
        supports_transparency: Some(true),
        api: API_GLES2,
        single_buffered: false,
        stereoscopy: false,
    }
}

/// Whether a config with attributes `a` gives what template `t` asks: the
/// same color buffer, at least the alpha, depth and stencil bits asked for,
/// the sample count if one is asked for, floating point pixels exactly when
/// asked, single buffering and stereoscopy where asked, hardware
/// acceleration as asked, every surface kind asked for, one of the APIs
/// asked for, and transparency where asked.
pub open spec fn config_meets_template(a: ConfigAttributes, t: ConfigTemplate) -> bool {
    &&& a.color_buffer_type == t.color_buffer_type
    &&& t.alpha_size <= a.alpha_size
    &&& t.depth_size <= a.depth_size
    &&& t.stencil_size <= a.stencil_size
    &&& (t.num_samples matches Some(n) ==> n == a.num_samples)
    &&& t.float_pixels == a.float_pixels
    &&& (t.single_buffering ==> a.single_buffered)
    &&& (t.stereoscopy == Some(true) ==> a.stereoscopy)
    &&& (t.hardware_accelerated matches Some(h) ==> h == a.hardware_accelerated)
    &&& (has_window(t.config_surface_types@) ==> has_window(a.config_surface_types))
    &&& (has_pixmap(t.config_surface_types@) ==> has_pixmap(a.config_surface_types))
    &&& (has_pbuffer(t.config_surface_types@) ==> has_pbuffer(a.config_surface_types))
    &&& (t.api matches Some(api) ==> {
        ||| has_opengl(api@) && has_opengl(a.api)
        ||| has_gles1(api@) && has_gles1(a.api)
        ||| has_gles2(api@) && has_gles2(a.api)
        ||| has_gles3(api@) && has_gles3(a.api)
    })
    &&& (t.transparency ==> a.supports_transparency == Some(true))
}

/// Whether the single configuration of the host satisfies `t`.
pub open spec fn template_satisfiable(t: ConfigTemplate) -> bool {
    &&& t.color_buffer_type == offered_color_buffer_type()
    &&& t.alpha_size <= 8
    &&& t.depth_size == 0
    &&& t.stencil_size == 0
    &&& t.num_samples is None
    &&& !t.float_pixels
    &&& !t.single_buffering
    &&& t.stereoscopy != Some(true)
    &&& t.hardware_accelerated != Some(false)
    &&& has_window(t.config_surface_types@)
    &&& !has_pixmap(t.config_surface_types@)
    &&& !has_pbuffer(t.config_surface_types@)
    &&& (t.api matches Some(api) ==> has_gles2(api@))
    &&& (t.native_window matches Some(w) ==> w is Trueos)
}

/// Filters a template against the host's single configuration: whether an
/// RGBA8/alpha8 window surface with no depth, stencil or multisampling,
/// GLES2 and a TRUEOS window (if any) meets it.
pub fn template_is_satisfiable(template: &ConfigTemplate) -> (r: bool)
    ensures
        r == template_satisfiable(*template),
{
    let color_ok = match template.color_buffer_type {
        ColorBufferType::Rgb { r_size: 8, g_size: 8, b_size: 8 } => true,
        _ => false,
    };
    let types = template.config_surface_types;
    let window = ConfigSurfaceTypes::window();
    let others = types.intersection(window.complement());
    proof {
        let b = types@;
        assert(b & (!SURFACE_TYPE_WINDOW & SURFACE_TYPE_ALL) == 0 <==> (b / 2) % 2 == 0 && (b
            / 4) % 2 == 0) by (bit_vector);
        assert(b & SURFACE_TYPE_WINDOW == SURFACE_TYPE_WINDOW <==> b % 2 == 1) by (bit_vector);
        if let Some(api) = template.api {
            let a = api@;
            assert(a & API_GLES2 == API_GLES2 <==> (a / 4) % 2 == 1) by (bit_vector);
        }
    }
    let api_ok = match template.api {
        None => true,
        Some(api) => api.contains(Api::gles2()),
    };
    let window_ok = match template.native_window {
        None => true,
        Some(NativeWindow::Trueos(_)) => true,
        Some(NativeWindow::Foreign) => false,
    };
    let stereo_ok = match template.stereoscopy {
        Some(true) => false,
        _ => true,
    };
    let hardware_ok = match template.hardware_accelerated {
        Some(false) => false,
        _ => true,
    };
    color_ok && template.alpha_size <= 8 && template.depth_size == 0 && template.stencil_size == 0
        && template.num_samples.is_none() && !template.float_pixels && !template.single_buffering
        && stereo_ok && hardware_ok && types.contains(window) && others.is_empty() && api_ok
        && window_ok
}

/// The raw id of a config.
#[derive(Debug, Clone, Copy, PartialEq, Eq)]
pub enum RawConfig {
    /// The TRUEOS config id.
    TrueOs(u64),
}

/// The TRUEOS vGPU config.
#[derive(Debug)]
pub struct Config {
    display: Display,
}

impl Clone for Config {
    fn clone(&self) -> (r: Self)
        ensures
            r == *self,
    {
        Config { display: self.display.clone() }
    }
}

impl Display {
    /// Finds the configs that meet `template`: the host's single config
    /// when the template is satisfiable, none otherwise.
    pub fn find_configs(&self, template: ConfigTemplate) -> (r: Result<Vec<Config>>)
        ensures
            r matches Ok(v) && (v@.len() == if template_satisfiable(template) {
                1int
            } else {
                0int
            }) && (forall|i: int| 0 <= i < v@.len() ==> (#[trigger] v@[i]).display_spec() == *self),
    {
        let mut configs: Vec<Config> = Vec::new();
        if template_is_satisfiable(&template) {
            configs.push(Config { display: self.clone() });
        }
        Ok(configs)
    }
}

impl Config {
    /// The display this config was found on.
    pub closed spec fn display_spec(self) -> Display {
        self.display
    }

    /// The layout of the color buffer: RGB with 8 bits per channel.
    pub fn color_buffer_type(&self) -> (r: Option<ColorBufferType>)
        ensures
            r == Some(offered_config().color_buffer_type),
    {
        Some(ColorBufferType::Rgb { r_size: 8, g_size: 8, b_size: 8 })
    }

    /// Whether the pixels are floating point: no.
    pub fn float_pixels(&self) -> (r: bool)
        ensures
            r == offered_config().float_pixels,
    {
        false
    }

    /// The number of alpha bits: 8.
    pub fn alpha_size(&self) -> (r: u8)
        ensures
            r == offered_config().alpha_size,
    {
        8
    }

    /// The number of depth bits: 0.
    pub fn depth_size(&self) -> (r: u8)
        ensures
            r == offered_config().depth_size,
    {
        0
    }

    /// The number of stencil bits: 0.
    pub fn stencil_size(&self) -> (r: u8)
        ensures
            r == offered_config().stencil_size,
    {
        0
    }

    /// The number of samples for multisampling: 0.
    pub fn num_samples(&self) -> (r: u8)
        ensures
            r == offered_config().num_samples,
    {
        0
    }

    /// Whether the config is sRGB capable: yes.
    pub fn srgb_capable(&self) -> (r: bool)
        ensures
            r == offered_config().srgb_capable,
    {
        true
    }

    /// Whether the config is hardware accelerated: yes.
    pub fn hardware_accelerated(&self) -> (r: bool)
        ensures
            r == offered_config().hardware_accelerated,
    {
        true
    }

    /// The kinds of surfaces the config renders to: windows.
    pub fn config_surface_types(&self) -> (r: ConfigSurfaceTypes)
        ensures
            r@ == offered_config().config_surface_types,
    {
        ConfigSurfaceTypes::window()
    }

    /// Whether the config supports transparency: yes.
    pub fn supports_transparency(&self) -> (r: Option<bool>)
        ensures
            r == offered_config().supports_transparency,
    {
        Some(true)
    }

    /// The client APIs the config supports: GLES2.
    pub fn api(&self) -> (r: Api)
        ensures
            r@ == offered_config().api,
    {
        Api::gles2()
    }

    /// The display this config was found on.
    pub fn display(&self) -> (r: Display)
        ensures
            r == self.display_spec(),
    {
        self.display.clone()
    }

    /// The raw id of the config: 0.
    pub fn raw_config(&self) -> (r: RawConfig)
        ensures
            r == RawConfig::TrueOs(0),
    {
        RawConfig::TrueOs(0)
    }
}

} // verus!
