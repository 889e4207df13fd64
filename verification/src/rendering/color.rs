//! Whether an output needs the colour pipeline.
//!
//! The whole design turns on one rule: an output where every surface is
//! ordinary sRGB must render *exactly* as it did before colour management
//! existed — same program, same format, same element list. Colour management
//! is not a tax on the common case.

use vstd::prelude::*;

verus! {

/// Whether this output's frame needs colour management at all.
#[derive(Debug, Clone, Copy, PartialEq, Eq, Structural)]
pub enum ColorPass {
    /// Nothing on the output is described, so the pre-colour-management path
    /// is used unchanged.
    Passthrough,
    /// Something needs decoding, so every surface goes through the colour
    /// program — including the undescribed ones, which take the protocol's
    /// defined sRGB default.
    Managed,
}

impl Default for ColorPass {
    fn default() -> (p: Self)
        ensures
            p == ColorPass::Passthrough,
    {
        ColorPass::Passthrough
    }
}

impl ColorPass {
    pub fn is_managed(self) -> (r: bool)
        ensures
            r == (self == ColorPass::Managed),
    {
        self == ColorPass::Managed
    }

}

} // verus!
