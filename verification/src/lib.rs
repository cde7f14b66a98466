//! Verified core of an HDR colour-management stack for a Wayland compositor:
//! ICC display-profile parsing, EDID-derived HDR capabilities, per-output and
//! per-surface image descriptions, and the shader set-up of HDR render elements.

pub mod color_management;
pub mod edid;
pub mod hdr_output;
pub mod icc;
pub mod ieee;
