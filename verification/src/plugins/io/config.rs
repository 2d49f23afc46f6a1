//! Output format of the I/O plugin.

use vstd::prelude::*;

verus! {

/// File format of written frames.
#[derive(Debug, Clone, Copy, PartialEq, Eq, Structural)]
pub enum ImageFormat {
    Png,
    Jpeg,
}

impl Default for ImageFormat {
    fn default() -> (res: ImageFormat)
        ensures
            res == ImageFormat::Png,
    {
        ImageFormat::Png
    }
}

} // verus!
