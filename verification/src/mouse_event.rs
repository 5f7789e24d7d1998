//! Mouse, hover and scroll events.
use vstd::prelude::*;
use vstd::std_specs::convert::FromSpecImpl;

verus! {

/// The kind of UI input event that scrolling comes as.
pub const ARKUI_UIINPUTEVENT_TYPE_AXIS: u32 = 2;

/// A single-precision number, as its bits.
#[derive(Clone, Copy, Debug, PartialEq, Eq, Structural)]
pub struct F32Bits {
    pub bits: u32,
}

impl F32Bits {
    /// Positive zero.
    pub open spec fn zero() -> F32Bits {
        F32Bits { bits: 0 }
    }

    /// Whether the number equals zero: all bits are clear, but for the sign.
    pub open spec fn is_zero_number(self) -> bool {
        self.bits == 0 || self.bits == 0x8000_0000
    }

    /// Whether the number equals zero.
    pub fn is_zero(self) -> (r: bool)
        ensures
            r == self.is_zero_number(),
    {
        self.bits == 0 || self.bits == 0x8000_0000
    }
}

/// Where an input event came from.
#[derive(Debug, Clone, Copy, PartialEq, Eq, Structural)]
pub enum InputSourceType {
    Unknown,
    Mouse,
    TouchScreen,
    Touchpad,
    Joystick,
    Keyboard,
}

impl InputSourceType {
    /// The source that a number stands for; numbers without a meaning are unknown.
    pub open spec fn of_code(value: i32) -> InputSourceType {
        if value == 1 {
            InputSourceType::Mouse
        } else if value == 2 {
            InputSourceType::TouchScreen
        } else if value == 3 {
            InputSourceType::Touchpad
        } else if value == 4 {
            InputSourceType::Joystick
        } else if value == 5 {
            InputSourceType::Keyboard
        } else {
            InputSourceType::Unknown
        }
    }
}

impl From<i32> for InputSourceType {
    fn from(value: i32) -> (r: InputSourceType) {
        match value {
            1 => InputSourceType::Mouse,
            2 => InputSourceType::TouchScreen,
            3 => InputSourceType::Touchpad,
            4 => InputSourceType::Joystick,
            5 => InputSourceType::Keyboard,
            _ => InputSourceType::Unknown,
        }
    }
}

impl FromSpecImpl<i32> for InputSourceType {
    open spec fn obeys_from_spec() -> bool {
        true
    }

    open spec fn from_spec(value: i32) -> InputSourceType {
        InputSourceType::of_code(value)
    }
}

/// What the mouse did.
#[derive(Debug, Clone, Copy, PartialEq, Eq, Structural)]
pub enum MouseAction {
    NoAction,
    Press,
    Release,
    Move,
    /// The pointer came over the component.
    HoverEnter,
    /// The pointer left the component.
    HoverLeave,
}

impl MouseAction {
    /// The action that a number stands for. Numbers without a meaning are no action,
    /// and no number stands for hovering.
    pub open spec fn of_code(value: u32) -> MouseAction {
        if value == 1 {
            MouseAction::Press
        } else if value == 2 {
            MouseAction::Release
        } else if value == 3 {
            MouseAction::Move
        } else {
            MouseAction::NoAction
        }
    }
}

impl From<u32> for MouseAction {
    fn from(value: u32) -> (r: MouseAction) {
        match value {
            0 => MouseAction::NoAction,
            1 => MouseAction::Press,
            2 => MouseAction::Release,
            3 => MouseAction::Move,
            _ => MouseAction::NoAction,
        }
    }
}

impl FromSpecImpl<u32> for MouseAction {
    open spec fn obeys_from_spec() -> bool {
        true
    }

    open spec fn from_spec(value: u32) -> MouseAction {
        MouseAction::of_code(value)
    }
}

/// A mouse button.
#[derive(Debug, Clone, Copy, PartialEq, Eq, Structural)]
pub enum MouseButton {
    NoneButton,
    LeftButton,
    RightButton,
    MiddleButton,
    BackButton,
    ForwardButton,
}

impl MouseButton {
    /// Whether the number stands for a button, or for none.
    pub open spec fn valid_code(code: u32) -> bool {
        code == 0 || code == 1 || code == 2 || code == 4 || code == 8 || code == 16
    }

    /// The platform's number for the button.
    pub open spec fn code_of(self) -> u32 {
        match self {
            MouseButton::NoneButton => 0,
            MouseButton::LeftButton => 1,
            MouseButton::RightButton => 2,
            MouseButton::MiddleButton => 4,
            MouseButton::BackButton => 8,
            MouseButton::ForwardButton => 16,
        }
    }

    /// Whether the number stands for a button, or for none.
    pub fn is_code(code: u32) -> (r: bool)
        ensures
            r == MouseButton::valid_code(code),
    {
        code == 0 || code == 1 || code == 2 || code == 4 || code == 8 || code == 16
    }

    /// The button that a number stands for.
    pub fn from_code(code: u32) -> (r: MouseButton)
        requires
            MouseButton::valid_code(code),
        ensures
            r.code_of() == code,
    {
        match code {
            0 => MouseButton::NoneButton,
            1 => MouseButton::LeftButton,
            2 => MouseButton::RightButton,
            4 => MouseButton::MiddleButton,
            8 => MouseButton::BackButton,
            _ => MouseButton::ForwardButton,
        }
    }
}

/// A mouse event as the platform reports it.
#[derive(Debug, Clone, Copy, PartialEq, Eq, Structural)]
pub struct RawMouseEvent {
    pub x: F32Bits,
    pub y: F32Bits,
    pub screen_x: F32Bits,
    pub screen_y: F32Bits,
    pub timestamp: i64,
    pub action: u32,
    pub button: u32,
}

/// A mouse event, or a hover event, which has no position.
#[derive(Debug, Clone, Copy, PartialEq, Eq, Structural)]
pub struct MouseEventData {
    pub x: F32Bits,
    pub y: F32Bits,
    pub screen_x: F32Bits,
    pub screen_y: F32Bits,
    pub timestamp: i64,
    pub action: MouseAction,
    pub button: MouseButton,
}

impl Default for MouseEventData {
    fn default() -> (r: MouseEventData)
        ensures
            r == MouseEventData::blank(),
    {
        MouseEventData {
            x: F32Bits { bits: 0 },
            y: F32Bits { bits: 0 },
            screen_x: F32Bits { bits: 0 },
            screen_y: F32Bits { bits: 0 },
            timestamp: 0,
            action: MouseAction::NoAction,
            button: MouseButton::NoneButton,
        }
    }
}

impl MouseEventData {
    /// Nothing happened, at the origin.
    pub open spec fn blank() -> MouseEventData {
        MouseEventData {
            x: F32Bits::zero(),
            y: F32Bits::zero(),
            screen_x: F32Bits::zero(),
            screen_y: F32Bits::zero(),
            timestamp: 0,
            action: MouseAction::NoAction,
            button: MouseButton::NoneButton,
        }
    }

    /// Whether this is what the platform reported.
    pub open spec fn reads(self, raw: RawMouseEvent) -> bool {
        &&& self.x == raw.x
        &&& self.y == raw.y
        &&& self.screen_x == raw.screen_x
        &&& self.screen_y == raw.screen_y
        &&& self.timestamp == raw.timestamp
        &&& self.action == MouseAction::of_code(raw.action)
        &&& self.button.code_of() == raw.button
    }

    /// The event when the pointer enters or leaves.
    pub open spec fn hovering(is_hover: bool) -> MouseEventData {
        MouseEventData {
            action: if is_hover {
                MouseAction::HoverEnter
            } else {
                MouseAction::HoverLeave
            },
            ..MouseEventData::blank()
        }
    }

    /// Reads what the platform reported.
    pub fn from_raw(raw: RawMouseEvent) -> (r: MouseEventData)
        requires
            MouseButton::valid_code(raw.button),
        ensures
            r.reads(raw),
    {
        MouseEventData {
            x: raw.x,
            y: raw.y,
            screen_x: raw.screen_x,
            screen_y: raw.screen_y,
            timestamp: raw.timestamp,
            action: MouseAction::from(raw.action),
            button: MouseButton::from_code(raw.button),
        }
    }

    /// A hover event. Hovering carries no position, so the position is zero.
    pub fn hover(is_hover: bool) -> (r: MouseEventData)
        ensures
            r == MouseEventData::hovering(is_hover),
    {
        let mut data: MouseEventData = MouseEventData::default();
        data.action = if is_hover {
            MouseAction::HoverEnter
        } else {
            MouseAction::HoverLeave
        };
        data
    }
}

/// A mouse event on its way to the callback, with the addresses of the component
/// and of the window it belongs to.
#[derive(Debug, Clone, Copy, PartialEq, Eq, Structural)]
pub struct MouseDelivery {
    pub component: usize,
    pub window: usize,
    pub data: MouseEventData,
}

/// Registers the callback for mouse and hover events, in place of an earlier one.
pub fn set_mouse_event_callback<F>(slot: &mut Option<F>, callback: F)
    ensures
        *final(slot) == Some(callback),
{
    *slot = Some(callback);
}

/// Which callback gets a mouse event, and what it gets. `status` is that of reading
/// the event; an event that could not be read reaches nobody.
pub fn dispatch_mouse_event<'a, F>(
    callback: &'a Option<F>,
    component: usize,
    window: usize,
    status: i32,
    raw: Option<RawMouseEvent>,
) -> (r: Option<(&'a F, MouseDelivery)>)
    requires
        status == 0 ==> raw is Some && MouseButton::valid_code(raw->Some_0.button),
    ensures
        if status != 0 || callback is None {
            r is None
        } else {
            &&& r matches Some((f, delivery))
            &&& *f == callback->Some_0
            &&& delivery.component == component
            &&& delivery.window == window
            &&& delivery.data.reads(raw->Some_0)
            &&& delivery.data.x == raw->Some_0.x
            &&& delivery.data.y == raw->Some_0.y
            &&& delivery.data.screen_x == raw->Some_0.screen_x
            &&& delivery.data.screen_y == raw->Some_0.screen_y
            &&& delivery.data.timestamp == raw->Some_0.timestamp
        },
{
    if status != 0 {
        return None;
    }
    match (raw, callback) {
        (Some(event), Some(f)) => Some(
            (f, MouseDelivery { component, window, data: MouseEventData::from_raw(event) }),
        ),
        _ => None,
    }
}

/// Which callback gets a hover event, and what it gets. Hovering belongs to no
/// window, so the window's address is null.
pub fn dispatch_hover_event<'a, F>(callback: &'a Option<F>, component: usize, is_hover: bool) -> (r:
    Option<(&'a F, MouseDelivery)>)
    ensures
        match callback {
            Some(f) => r == Some(
                (
                    f,
                    MouseDelivery {
                        component,
                        window: 0,
                        data: MouseEventData::hovering(is_hover),
                    },
                ),
            ),
            None => r is None,
        },
{
    let data: MouseEventData = MouseEventData::hover(is_hover);
    match callback {
        Some(f) => Some((f, MouseDelivery { component, window: 0, data })),
        None => None,
    }
}

/// Registering the mouse, hover and scroll callbacks.
pub enum MouseRegistration {
    /// The mouse and hover callbacks are to be registered.
    RegisterMouse,
    /// The scroll callback is to be registered, for this kind of event.
    RegisterAxis { event_type: u32 },
    /// The mouse callbacks could not be registered, for this reason.
    Failed(String),
    /// The mouse callbacks are registered; `axis` says whether scrolling is too.
    Done { axis: bool },
}

/// Starts registering the callbacks.
pub fn register_mouse_callbacks() -> (r: MouseRegistration)
    ensures
        r is RegisterMouse,
{
    MouseRegistration::RegisterMouse
}

impl MouseRegistration {
    /// Whether the platform has to be called.
    pub open spec fn is_pending(self) -> bool {
        self is RegisterMouse || self is RegisterAxis
    }

    /// Whether `next` follows on a call that came back with `status`. Only the mouse
    /// callbacks are needed; older devices may not support the one for scrolling.
    pub open spec fn leads_to(self, status: i32, next: MouseRegistration) -> bool {
        match self {
            MouseRegistration::RegisterMouse => if status == 0 {
                next == (MouseRegistration::RegisterAxis {
                    event_type: ARKUI_UIINPUTEVENT_TYPE_AXIS,
                })
            } else {
                next matches MouseRegistration::Failed(reason) && reason@
                    == "XComponent register mouse event callback failed"@
            },
            MouseRegistration::RegisterAxis { .. } => next == (MouseRegistration::Done {
                axis: status == 0,
            }),
            _ => false,
        }
    }

    /// Goes on after the call that was to be made came back with `status`.
    pub fn after(self, status: i32) -> (r: MouseRegistration)
        requires
            self.is_pending(),
        ensures
            self.leads_to(status, r),
    {
        match self {
            MouseRegistration::RegisterMouse => {
                if status != 0 {
                    MouseRegistration::Failed(
                        "XComponent register mouse event callback failed".to_owned(),
                    )
                } else {
                    MouseRegistration::RegisterAxis { event_type: ARKUI_UIINPUTEVENT_TYPE_AXIS }
                }
            },
            _ => MouseRegistration::Done { axis: status == 0 },
        }
    }
}

/// What the platform reports of a scroll event.
#[derive(Debug, Clone, Copy, PartialEq, Eq, Structural)]
pub struct AxisReading {
    pub horizontal: F32Bits,
    pub vertical: F32Bits,
    pub pinch_scale: F32Bits,
    pub source_type: i32,
    /// Time of the event in nanoseconds.
    pub timestamp: i64,
}

/// A scroll event.
#[derive(Debug, Clone, Copy, PartialEq, Eq, Structural)]
pub struct AxisEventData {
    /// Horizontal scroll delta; positive is to the right.
    pub delta_x: F32Bits,
    /// Vertical scroll delta; positive is down.
    pub delta_y: F32Bits,
    /// Scale of a two-finger pinch; zero where there is none.
    pub pinch_scale: F32Bits,
    /// Where the event came from.
    pub source_type: InputSourceType,
    /// Time of the event in nanoseconds.
    pub timestamp: i64,
}

impl Default for AxisEventData {
    fn default() -> (r: AxisEventData)
        ensures
            r == AxisEventData::blank(),
    {
        AxisEventData {
            delta_x: F32Bits { bits: 0 },
            delta_y: F32Bits { bits: 0 },
            pinch_scale: F32Bits { bits: 0 },
            source_type: InputSourceType::Unknown,
            timestamp: 0,
        }
    }
}

impl AxisEventData {
    /// No scrolling, from nowhere.
    pub open spec fn blank() -> AxisEventData {
        AxisEventData {
            delta_x: F32Bits::zero(),
            delta_y: F32Bits::zero(),
            pinch_scale: F32Bits::zero(),
            source_type: InputSourceType::Unknown,
            timestamp: 0,
        }
    }
}

impl AxisReading {
    /// Whether there is neither scrolling nor pinching in the event.
    pub open spec fn is_idle(self) -> bool {
        &&& self.horizontal.is_zero_number()
        &&& self.vertical.is_zero_number()
        &&& self.pinch_scale.is_zero_number()
    }

    /// The event that was read.
    pub open spec fn event(self) -> AxisEventData {
        AxisEventData {
            delta_x: self.horizontal,
            delta_y: self.vertical,
            pinch_scale: self.pinch_scale,
            source_type: InputSourceType::of_code(self.source_type),
            timestamp: self.timestamp,
        }
    }
}

/// Registers the callback for scroll events, in place of an earlier one.
pub fn set_axis_event_callback<F>(slot: &mut Option<F>, callback: F)
    ensures
        *final(slot) == Some(callback),
{
    *slot = Some(callback);
}

/// Which callback gets a scroll event, and what it gets. Without an event, and where
/// the event neither scrolls nor pinches, nobody gets anything.
pub fn dispatch_axis_event<'a, F>(callback: &'a Option<F>, reading: Option<AxisReading>) -> (r:
    Option<(&'a F, AxisEventData)>)
    ensures
        match (reading, callback) {
            (Some(event), Some(f)) => r == if event.is_idle() {
                None::<(&'a F, AxisEventData)>
            } else {
                Some((f, event.event()))
            },
            _ => r is None,
        },
        r matches Some((_, data)) ==> {
            &&& reading matches Some(event)
            &&& data.delta_x == event.horizontal
            &&& data.delta_y == event.vertical
            &&& data.pinch_scale == event.pinch_scale
            &&& data.timestamp == event.timestamp
        },
{
    let event: AxisReading = match reading {
        Some(event) => event,
        None => return None,
    };
    let delta_y: F32Bits = event.vertical;
    let delta_x: F32Bits = event.horizontal;
    let pinch_scale: F32Bits = event.pinch_scale;
    let source_type: InputSourceType = InputSourceType::from(event.source_type);
    if delta_x.is_zero() && delta_y.is_zero() && pinch_scale.is_zero() {
        return None;
    }
    let data: AxisEventData = AxisEventData {
        delta_x,
        delta_y,
        pinch_scale,
        source_type,
        timestamp: event.timestamp,
    };
    match callback {
        Some(f) => Some((f, data)),
        None => None,
    }
}

/// No event that the platform reports as a mouse event reads as hovering.
pub proof fn raw_events_never_hover(data: MouseEventData, raw: RawMouseEvent)
    requires
        data.reads(raw),
    ensures
        !(data.action is HoverEnter) && !(data.action is HoverLeave),
{
}

/// A raw event has one reading: the numbers of the buttons are all different.
pub proof fn raw_events_read_one_way(a: MouseEventData, b: MouseEventData, raw: RawMouseEvent)
    requires
        a.reads(raw),
        b.reads(raw),
    ensures
        a == b,
{
}

/// Whether registering succeeds depends on the mouse callbacks alone: a failure
/// there ends it before scrolling is tried, and a failure to register scrolling
/// does not matter.
pub proof fn axis_registration_is_optional(
    mouse_status: i32,
    axis_status: i32,
    first: MouseRegistration,
    second: MouseRegistration,
)
    requires
        MouseRegistration::RegisterMouse.leads_to(mouse_status, first),
        first is RegisterAxis ==> first.leads_to(axis_status, second),
    ensures
        mouse_status != 0 <==> first is Failed,
        mouse_status != 0 ==> !first.is_pending(),
        mouse_status == 0 ==> first is RegisterAxis && second is Done,
        first matches MouseRegistration::Failed(reason) ==> reason@
            == "XComponent register mouse event callback failed"@,
        first matches MouseRegistration::RegisterAxis { event_type } ==> event_type == 2,
        mouse_status == 0 ==> second == (MouseRegistration::Done { axis: axis_status == 0 }),
{
}

/// A number is zero exactly where no bit but the sign is set, whichever sign it has.
pub proof fn zero_has_no_bits_but_the_sign(number: F32Bits)
    ensures
        number.is_zero_number() <==> number.bits & 0x7fff_ffff == 0,
        F32Bits::zero().bits == 0,
{
    let bits = number.bits;
    assert(bits & 0x7fff_ffff == 0 <==> bits == 0 || bits == 0x8000_0000) by (bit_vector);
}

/// The sources are numbered from 1 to 5, and every other number is an unknown source.
pub proof fn source_types_are_numbered(code: i32)
    ensures
        InputSourceType::of_code(code) is Mouse <==> code == 1,
        InputSourceType::of_code(code) is TouchScreen <==> code == 2,
        InputSourceType::of_code(code) is Touchpad <==> code == 3,
        InputSourceType::of_code(code) is Joystick <==> code == 4,
        InputSourceType::of_code(code) is Keyboard <==> code == 5,
        InputSourceType::of_code(code) is Unknown <==> !(1 <= code <= 5),
{
}

/// Pressing, releasing and moving are numbered from 1 to 3, and every other number is no
/// action.
pub proof fn mouse_actions_are_numbered(code: u32)
    ensures
        MouseAction::of_code(code) is Press <==> code == 1,
        MouseAction::of_code(code) is Release <==> code == 2,
        MouseAction::of_code(code) is Move <==> code == 3,
        MouseAction::of_code(code) is NoAction <==> !(1 <= code <= 3),
{
}

/// Each button has a bit of its own, counted up from the left one; no button has none.
/// These are all the numbers that stand for a button.
pub proof fn mouse_buttons_are_bits(button: MouseButton, code: u32)
    ensures
        MouseButton::NoneButton.code_of() == 0,
        MouseButton::LeftButton.code_of() == 1,
        MouseButton::RightButton.code_of() == 2,
        MouseButton::MiddleButton.code_of() == 4,
        MouseButton::BackButton.code_of() == 8,
        MouseButton::ForwardButton.code_of() == 16,
        MouseButton::valid_code(button.code_of()),
        MouseButton::valid_code(code) <==> code == 0 || code == 1 || code == 2 || code == 4 || code
            == 8 || code == 16,
{
}

/// A mouse event has the position, the time, the action and the button that the platform
/// reported.
pub proof fn mouse_event_keeps_report(data: MouseEventData, raw: RawMouseEvent)
    ensures
        data.reads(raw) <==> {
            &&& data.x.bits == raw.x.bits
            &&& data.y.bits == raw.y.bits
            &&& data.screen_x.bits == raw.screen_x.bits
            &&& data.screen_y.bits == raw.screen_y.bits
            &&& data.timestamp == raw.timestamp
            &&& data.action == MouseAction::of_code(raw.action)
            &&& data.button.code_of() == raw.button
        },
{
}

/// Hovering says whether the pointer came or went, and nothing else: no position, no time
/// and no button.
pub proof fn hovering_has_no_position(is_hover: bool)
    ensures
        ({
            let data = MouseEventData::hovering(is_hover);
            &&& data.action is HoverEnter <==> is_hover
            &&& data.action is HoverLeave <==> !is_hover
            &&& data.x.bits == 0 && data.y.bits == 0
            &&& data.screen_x.bits == 0 && data.screen_y.bits == 0
            &&& data.timestamp == 0
            &&& data.button is NoneButton
        }),
        MouseEventData::blank().action is NoAction,
        (MouseEventData {
            action: MouseAction::NoAction,
            ..MouseEventData::hovering(is_hover)
        }) == MouseEventData::blank(),
{
}

/// A scroll event has the numbers, the time and the source that the platform reported:
/// scrolling in each direction, and the scale of a pinch.
pub proof fn scroll_event_keeps_report(reading: AxisReading)
    ensures
        reading.event().delta_x.bits == reading.horizontal.bits,
        reading.event().delta_y.bits == reading.vertical.bits,
        reading.event().pinch_scale.bits == reading.pinch_scale.bits,
        reading.event().timestamp == reading.timestamp,
        reading.event().source_type == InputSourceType::of_code(reading.source_type),
{
}

/// Only events that neither scroll nor pinch are held back: whatever is delivered has a
/// bit set in one of its three numbers, apart from their signs.
pub proof fn delivered_events_scroll_or_pinch(reading: AxisReading)
    ensures
        reading.is_idle() <==> {
            &&& reading.horizontal.bits & 0x7fff_ffff == 0
            &&& reading.vertical.bits & 0x7fff_ffff == 0
            &&& reading.pinch_scale.bits & 0x7fff_ffff == 0
        },
        !reading.is_idle() ==> {
            let event = reading.event();
            ||| event.delta_x.bits & 0x7fff_ffff != 0
            ||| event.delta_y.bits & 0x7fff_ffff != 0
            ||| event.pinch_scale.bits & 0x7fff_ffff != 0
        },
{
    zero_has_no_bits_but_the_sign(reading.horizontal);
    zero_has_no_bits_but_the_sign(reading.vertical);
    zero_has_no_bits_but_the_sign(reading.pinch_scale);
}

/// A scroll event that says nothing has no number set and comes from nowhere.
pub proof fn blank_scroll_event_is_idle()
    ensures
        AxisEventData::blank().delta_x.bits == 0,
        AxisEventData::blank().delta_y.bits == 0,
        AxisEventData::blank().pinch_scale.bits == 0,
        AxisEventData::blank().timestamp == 0,
        AxisEventData::blank().source_type is Unknown,
{
}

} // verus!
