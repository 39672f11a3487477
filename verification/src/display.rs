//! The TRUEOS display.

use vstd::prelude::*;

use crate::error::{not_supported, Error, ErrorKind, Result};
use crate::handle::NativeDisplay;

verus! {

/// The features a display supports, as a set of flag bits.
#[derive(Debug, Clone, Copy, PartialEq, Eq)]
pub struct DisplayFeatures {
    bits: u32,
}

impl View for DisplayFeatures {
    type V = u32;

    closed spec fn view(&self) -> u32 {
        self.bits
    }
}

impl DisplayFeatures {
    /// The set with no feature.
    pub fn empty() -> (r: DisplayFeatures)
        ensures
            r@ == 0,
    {
        DisplayFeatures { bits: 0 }
    }

    /// The flag bits.
    pub fn bits(&self) -> (r: u32)
        ensures
            r == self@,
    {
        self.bits
    }

    /// Whether no feature is in the set.
    pub fn is_empty(&self) -> (r: bool)
        ensures
            r == (self@ == 0),
    {
        self.bits == 0
    }
}

/// The raw id of a display.
#[derive(Debug, Clone, Copy, PartialEq, Eq)]
pub enum RawDisplay {
    /// A TRUEOS UI4 connection capability.
    TrueOs(u64),
}

/// The TRUEOS display: a host-issued UI4 graphics connection capability,
/// which is never zero.
#[derive(Debug)]
pub struct Display {
    connection: u64,
}

/// The message of the error for a native display of another platform.
pub open spec fn unsupported_display_message() -> &'static str {
    "provided native display is not supported"
}

impl Clone for Display {
    fn clone(&self) -> (r: Self)
        ensures
            r == *self,
    {
        proof {
            use_type_invariant(self);
        }
        Display { connection: self.connection }
    }
}

impl Display {
    #[verifier::type_invariant]
    spec fn nonzero(self) -> bool {
        self.connection != 0
    }

    /// The connection capability of this display.
    pub closed spec fn connection_spec(self) -> u64 {
        self.connection
    }

    /// Creates the TRUEOS display of a native display handle: the display
    /// of a TRUEOS handle's connection, or `NotSupported` for any other
    /// handle.
    pub fn new(display: NativeDisplay) -> (r: Result<Display>)
        ensures
            match display {
                NativeDisplay::Trueos(h) => r matches Ok(d) && d.connection_spec()
                    == h.connection_spec(),
                NativeDisplay::Foreign => r == Err::<Display, Error>(
                    not_supported(unsupported_display_message()),
                ),
            },
    {
        match display {
            NativeDisplay::Trueos(handle) => {
                let connection = handle.connection();
                Ok(Display { connection })
            },
            NativeDisplay::Foreign => Err(
                Error::from_kind(ErrorKind::NotSupported("provided native display is not supported")),
            ),
        }
    }

    /// The connection capability of this display, never zero.
    pub fn connection(&self) -> (r: u64)
        ensures
            r == self.connection_spec(),
            r != 0,
    {
        proof {
            use_type_invariant(self);
        }
        self.connection
    }

    /// A human readable name of the display's implementation.
    pub fn version_string(&self) -> (r: String)
        ensures
            r@ == "TRUEOS vGPU UI4"@,
    {
        "TRUEOS vGPU UI4".to_owned()
    }

    /// The features this display supports: none.
    pub fn supported_features(&self) -> (r: DisplayFeatures)
        ensures
            r@ == 0,
    {
        DisplayFeatures::empty()
    }

    /// The raw id of this display: its connection capability.
    pub fn raw_display(&self) -> (r: RawDisplay)
        ensures
            r == RawDisplay::TrueOs(self.connection_spec()),
            self.connection_spec() != 0,
    {
        proof {
            use_type_invariant(self);
        }
        RawDisplay::TrueOs(self.connection)
    }
}

} // verus!
