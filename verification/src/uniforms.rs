//! The viewport and the aspect ratio shared by every draw.
//!
//! The ratio is a single-precision value and is carried as its bit pattern.
//! This crate neither divides the viewport's sides nor compares two ratios:
//! the caller does both and hands in what came out.

use vstd::prelude::*;

verus! {

/// The size of the drawable area, in pixels.
#[derive(Clone, Copy, PartialEq, Eq, Debug, Structural)]
pub struct Viewport {
    pub width: u32,
    pub height: u32,
}

/// The values shared by all draws of a frame.
#[derive(Clone, Copy, PartialEq, Eq, Debug, Structural)]
pub struct Uniforms {
    /// Width over height, as the GPU has it: a single-precision bit pattern.
    pub aspect_ratio: u32,
}

impl Uniforms {
    /// The uniforms after the per-frame check, where `current` is the ratio
    /// of the live viewport and `differs` says whether the caller found it
    /// further from the stored one than the tolerance.
    pub open spec fn reconciled(self, current: u32, differs: bool) -> Uniforms {
        if differs {
            Uniforms { aspect_ratio: current }
        } else {
            self
        }
    }

    /// The per-frame check: takes over the live ratio if the caller found it
    /// to differ from the stored one, and says whether it did. The caller
    /// owes the GPU an upload exactly when the answer is `true`.
    pub fn reconcile(&mut self, current: u32, differs: bool) -> (changed: bool)
        ensures
            changed == differs,
            *final(self) == old(self).reconciled(current, differs),
    {
        if differs {
            self.aspect_ratio = current;
        }
        differs
    }
}

/// A comparison of two ratios that never tells a ratio from itself.
pub open spec fn never_differs_from_itself(differs: spec_fn(u32, u32) -> bool) -> bool {
    forall|ratio: u32| !#[trigger] differs(ratio, ratio)
}

/// The per-frame check is idempotent under every comparison that never tells
/// a ratio from itself: run twice against the same live ratio, the second run
/// finds no difference and changes nothing.
pub proof fn lemma_reconcile_idempotent(
    uniforms: Uniforms,
    current: u32,
    differs: spec_fn(u32, u32) -> bool,
)
    requires
        never_differs_from_itself(differs),
    ensures
        ({
            let once = uniforms.reconciled(current, differs(current, uniforms.aspect_ratio));
            &&& !differs(current, once.aspect_ratio)
            &&& once.reconciled(current, differs(current, once.aspect_ratio)) == once
        }),
{
}

} // verus!
