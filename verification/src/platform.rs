//! What the hosting platform supplies.
use vstd::prelude::*;

verus! {

/// The platform's own types, which the library stores and hands back but never
/// looks into.
pub trait Platform: Sized {
    /// A native window of a surface.
    type Window: Copy;

    /// The surface component that is mounted for the app.
    type Component;

    /// The system configuration.
    type Configuration: Clone + Default;

    /// The resource manager.
    type ResourceManager: Clone;

    /// What wakes the event loop.
    type Waker: Clone;

    /// The input method.
    type Ime;

    /// Receives the app's events.
    type EventHandler;

    /// Answers whether a back press is intercepted.
    type BackPressInterceptor;

    /// The data of a touch event.
    type TouchData;

    /// The data of a key event.
    type KeyData;
}

} // verus!
