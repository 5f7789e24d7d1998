//! The events that an app receives.
use vstd::prelude::*;
use crate::geometry::Size;
use crate::mouse_event::{AxisEventData, MouseEventData};
use crate::platform::Platform;

verus! {

/// When a frame is drawn and when it is to be shown.
#[derive(Clone, Copy, Debug, PartialEq, Eq, Structural)]
pub struct IntervalInfo {
    pub time_stamp: i64,
    pub target_time_stamp: i64,
}

/// What the user did.
#[verifier::reject_recursive_types(P)]
pub enum InputEvent<P: Platform> {
    TouchEvent(P::TouchData),
    KeyEvent(P::KeyData),
    MouseEvent(MouseEventData),
    AxisEvent(AxisEventData),
}

/// An event of the app's surface.
#[verifier::reject_recursive_types(P)]
pub enum Event<P: Platform> {
    SurfaceCreate,
    SurfaceDestroy,
    WindowRedraw(IntervalInfo),
    WindowResize(Size),
    Input(InputEvent<P>),
}

} // verus!
