//! The packages that the threads of the compositor send one another, and the
//! signals under which they are sent.

use crate::defs::{DrmBundle, OutputInfo, SurfaceId};
use crate::event_loop::SignalId;
use vstd::prelude::*;

verus! {

/// A redraw is needed.
pub const NOTIFY: SignalId = 0;

/// The system is about to be suspended.
pub const SUSPEND: SignalId = 1;

/// The system woke up.
pub const WAKEUP: SignalId = 2;

/// An output was found.
pub const OUTPUT_FOUND: SignalId = 3;

/// A display was made for an output.
pub const DISPLAY_CREATED: SignalId = 4;

/// A page flip is done.
pub const PAGE_FLIP: SignalId = 5;

/// A surface is ready to be shown.
pub const SURFACE_READY: SignalId = 6;

/// A surface was destroyed.
pub const SURFACE_DESTROYED: SignalId = 7;

/// A package.
#[derive(Clone, PartialEq, Eq, Debug)]
pub enum Perceptron {
    Notify,
    Suspend,
    WakeUp,
    OutputFound(DrmBundle),
    DisplayCreated(OutputInfo),
    PageFlip(i32),
    SurfaceReady(SurfaceId),
    SurfaceDestroyed(SurfaceId),
}

/// The signal under which a package is sent.
pub fn signal_of(package: &Perceptron) -> (id: SignalId)
    ensures
        id == (match package {
            Perceptron::Notify => NOTIFY,
            Perceptron::Suspend => SUSPEND,
            Perceptron::WakeUp => WAKEUP,
            Perceptron::OutputFound(_) => OUTPUT_FOUND,
            Perceptron::DisplayCreated(_) => DISPLAY_CREATED,
            Perceptron::PageFlip(_) => PAGE_FLIP,
            Perceptron::SurfaceReady(_) => SURFACE_READY,
            Perceptron::SurfaceDestroyed(_) => SURFACE_DESTROYED,
        }),
{
    match package {
        Perceptron::Notify => NOTIFY,
        Perceptron::Suspend => SUSPEND,
        Perceptron::WakeUp => WAKEUP,
        Perceptron::OutputFound(_) => OUTPUT_FOUND,
        Perceptron::DisplayCreated(_) => DISPLAY_CREATED,
        Perceptron::PageFlip(_) => PAGE_FLIP,
        Perceptron::SurfaceReady(_) => SURFACE_READY,
        Perceptron::SurfaceDestroyed(_) => SURFACE_DESTROYED,
    }
}

} // verus!
