//! The data of the TRUEOS vGPU C ABI that this backend reads, and the
//! mapping of its return codes to errors.

use vstd::prelude::*;

use crate::error::{Error, ErrorKind, Result};

verus! {

/// What the host writes back when it acquires the vGPU surface of a UI4
/// window.
#[derive(Debug, Clone, Copy, PartialEq, Eq, Default)]
pub struct SurfaceInfo {
    /// The opaque vGPU surface handle.
    pub surface: u64,
    /// The size of the surface's memory in bytes.
    pub bytes: u64,
    /// The width in pixels.
    pub width: u32,
    /// The height in pixels.
    pub height: u32,
    /// The length of a row in bytes.
    pub pitch: u32,
    /// The pixel format code.
    pub format: u32,
}

/// The format code of RGBA8 UNORM sRGB pixels.
pub const SURFACE_FORMAT_RGBA8_UNORM_SRGB: u32 = 1;

/// The render and present capabilities of the vGPU (bits 4 and 6), which a
/// context asks for when it opens its device.
pub const CAPABILITIES_RENDER_PRESENT: u64 = 0x50;

/// The error kind that the host's return code `rc` stands for.
pub open spec fn rc_error_kind(rc: i32) -> ErrorKind {
    if rc == -5 {
        ErrorKind::BadSurface
    } else if rc == -9 {
        ErrorKind::BadContext
    } else if rc == -12 {
        ErrorKind::OutOfMemory
    } else if rc == -13 || rc == -16 {
        ErrorKind::BadAccess
    } else if rc == -19 {
        ErrorKind::BadDisplay
    } else if rc == -32 {
        ErrorKind::ContextLost
    } else if rc == -95 {
        ErrorKind::NotSupported("operation not supported by the TRUEOS vGPU host")
    } else {
        ErrorKind::Misc
    }
}

/// What a host call that returned `rc` means: success for zero, else the
/// error of the code's kind that carries the code.
pub open spec fn rc_result(rc: i32) -> Result<()> {
    if rc == 0 {
        Ok(())
    } else {
        Err(Error { raw_code: Some(rc as i64), raw_os_message: None, kind: rc_error_kind(rc) })
    }
}

/// Maps a TRUEOS vGPU C ABI return code to a [`Result`].
pub fn check_rc(rc: i32) -> (r: Result<()>)
    ensures
        r == rc_result(rc),
        r is Ok <==> rc == 0,
{
    if rc == 0 {
        return Ok(());
    }
    let kind = match rc {
        -5 => ErrorKind::BadSurface,
        -9 => ErrorKind::BadContext,
        -12 => ErrorKind::OutOfMemory,
        -13 => ErrorKind::BadAccess,
        -16 => ErrorKind::BadAccess,
        -19 => ErrorKind::BadDisplay,
        -32 => ErrorKind::ContextLost,
        -95 => ErrorKind::NotSupported("operation not supported by the TRUEOS vGPU host"),
        _ => ErrorKind::Misc,
    };
    Err(Error::new(Some(rc as i64), None, kind))
}

} // verus!
