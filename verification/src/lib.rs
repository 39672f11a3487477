//! The TRUEOS backend of a GL context library.
//!
//! The TRUEOS vGPU host maps a UI4 window directly into an opaque vGPU
//! surface and hands back its handle, dimensions and pitch. This crate holds
//! the decisions of that backend: which configurations it offers, which
//! context and surface requests it accepts, how host return codes map to
//! errors, and how contexts and surfaces become current and stop being
//! current. The host calls themselves are made by the caller, which hands
//! their results to the functions here.

pub mod error;
pub mod vgpu;
pub mod handle;
pub mod display;
pub mod config;
pub mod context;
pub mod surface;
pub mod laws;
