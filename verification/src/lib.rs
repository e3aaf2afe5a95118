//! Verified core of a GPU rendering bootstrap: accelerator selection,
//! queue-family resolution, presentation-chain negotiation, the per-frame
//! synchronization state machine, and teardown ordering. All platform calls
//! (instance, surface, device, swapchain) live outside this crate; the
//! functions here decide, on plain values, what those calls are given.

use vstd::prelude::*;

pub mod device;
pub mod frame;
pub mod swapchain;
pub mod teardown;

verus! {

/// A fatal setup error: startup aborts, there is no retry.
#[derive(Debug, PartialEq, Eq, Structural, Clone, Copy)]
pub enum SetupError {
    /// No enumerated accelerator satisfies the feature requirement.
    NoSuitableAccelerator,
    /// No queue family supports graphics submission.
    NoGraphicsQueue,
    /// No queue family can present to the surface.
    NoPresentQueue,
}

impl SetupError {
    /// A fixed description of the failed stage, for the process-terminating report.
    pub fn message(&self) -> (r: &'static str)
        ensures
            self is NoSuitableAccelerator ==> r@ == "no suitable accelerator"@,
            self is NoGraphicsQueue ==> r@ == "no suitable graphics queue"@,
            self is NoPresentQueue ==> r@ == "no suitable present queue"@,
    {
        match self {
            SetupError::NoSuitableAccelerator => "no suitable accelerator",
            SetupError::NoGraphicsQueue => "no suitable graphics queue",
            SetupError::NoPresentQueue => "no suitable present queue",
        }
    }
}

} // verus!
