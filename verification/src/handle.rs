//! The native display and window handles that the backend accepts.
//!
//! A native handle names the platform it comes from. This backend accepts
//! only TRUEOS handles; a handle of any other platform is `Foreign`.

use vstd::prelude::*;

verus! {

/// A TRUEOS display handle: the host-issued UI4 graphics connection
/// capability, which is never zero.
#[derive(Debug, Clone, Copy, PartialEq, Eq)]
pub struct TrueosDisplayHandle {
    connection: u64,
}

impl TrueosDisplayHandle {
    #[verifier::type_invariant]
    spec fn nonzero(self) -> bool {
        self.connection != 0
    }

    /// The connection capability.
    pub closed spec fn connection_spec(self) -> u64 {
        self.connection
    }

    /// Creates a handle for `connection`, or `None` when it is zero.
    pub fn new(connection: u64) -> (r: Option<TrueosDisplayHandle>)
        ensures
            r is Some <==> connection != 0,
            r matches Some(h) ==> h.connection_spec() == connection,
    {
        if connection == 0 {
            None
        } else {
            Some(TrueosDisplayHandle { connection })
        }
    }

    /// The connection capability, never zero.
    pub fn connection(&self) -> (r: u64)
        ensures
            r == self.connection_spec(),
            r != 0,
    {
        proof {
            use_type_invariant(self);
        }
        self.connection
    }
}

/// A TRUEOS window handle: the id of a UI4 window, which is never zero.
#[derive(Debug, Clone, Copy, PartialEq, Eq)]
pub struct TrueosWindowHandle {
    window: u32,
}

impl TrueosWindowHandle {
    #[verifier::type_invariant]
    spec fn nonzero(self) -> bool {
        self.window != 0
    }

    /// The window id.
    pub closed spec fn window_spec(self) -> u32 {
        self.window
    }

    /// Creates a handle for the window `window`, or `None` when it is zero.
    pub fn new(window: u32) -> (r: Option<TrueosWindowHandle>)
        ensures
            r is Some <==> window != 0,
            r matches Some(h) ==> h.window_spec() == window,
    {
        if window == 0 {
            None
        } else {
            Some(TrueosWindowHandle { window })
        }
    }

    /// The window id, never zero.
    pub fn window(&self) -> (r: u32)
        ensures
            r == self.window_spec(),
            r != 0,
    {
        proof {
            use_type_invariant(self);
        }
        self.window
    }
}

/// A native display handle.
#[derive(Debug, Clone, Copy, PartialEq, Eq)]
pub enum NativeDisplay {
    /// A TRUEOS UI4 display.
    Trueos(TrueosDisplayHandle),
    /// A display of another platform.
    Foreign,
}

/// A native window handle.
#[derive(Debug, Clone, Copy, PartialEq, Eq)]
pub enum NativeWindow {
    /// A TRUEOS UI4 window.
    Trueos(TrueosWindowHandle),
    /// A window of another platform.
    Foreign,
}

} // verus!
