//! Image side of a small path-tracing renderer.
//!
//! The geometry and shading pipeline works on machine floating point and is
//! driven by the host program; this crate holds the parts with exact
//! integer semantics: image dimensions, the row-major pixel buffer with its
//! bottom-up row convention, and the plain-text serialization of a
//! quantized image.

use vstd::prelude::*;

pub mod bitmap;
pub mod ppm;
pub mod types;

verus! {

/// ANSI control sequence that erases the current terminal line and returns
/// the cursor to its start; used between progress updates.
pub fn clear_line() -> (r: &'static str)
    ensures
        r@ == "\u{1B}[2K\r"@,
{
    "\u{1B}[2K\r"
}

} // verus!
