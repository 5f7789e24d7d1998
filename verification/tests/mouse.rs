use openharmony_ability::mouse_event::{
    dispatch_axis_event, dispatch_hover_event, dispatch_mouse_event, register_mouse_callbacks,
    set_axis_event_callback, set_mouse_event_callback, AxisEventData, AxisReading, F32Bits,
    InputSourceType, MouseAction, MouseButton, MouseEventData, MouseRegistration, RawMouseEvent,
    ARKUI_UIINPUTEVENT_TYPE_AXIS,
};

fn bits(value: f32) -> F32Bits {
    F32Bits { bits: value.to_bits() }
}

fn raw(action: u32, button: u32) -> RawMouseEvent {
    RawMouseEvent {
        x: bits(1.5),
        y: bits(-2.0),
        screen_x: bits(10.0),
        screen_y: bits(20.0),
        timestamp: 99,
        action,
        button,
    }
}

fn reading(horizontal: f32, vertical: f32, pinch_scale: f32) -> AxisReading {
    AxisReading {
        horizontal: bits(horizontal),
        vertical: bits(vertical),
        pinch_scale: bits(pinch_scale),
        source_type: 3,
        timestamp: 123_456_789,
    }
}

#[test]
fn source_types_by_number() {
    assert_eq!(InputSourceType::from(0), InputSourceType::Unknown);
    assert_eq!(InputSourceType::from(1), InputSourceType::Mouse);
    assert_eq!(InputSourceType::from(2), InputSourceType::TouchScreen);
    assert_eq!(InputSourceType::from(3), InputSourceType::Touchpad);
    assert_eq!(InputSourceType::from(4), InputSourceType::Joystick);
    assert_eq!(InputSourceType::from(5), InputSourceType::Keyboard);
    assert_eq!(InputSourceType::from(6), InputSourceType::Unknown);
    assert_eq!(InputSourceType::from(-1), InputSourceType::Unknown);
}

#[test]
fn mouse_actions_by_number() {
    assert_eq!(MouseAction::from(0), MouseAction::NoAction);
    assert_eq!(MouseAction::from(1), MouseAction::Press);
    assert_eq!(MouseAction::from(2), MouseAction::Release);
    assert_eq!(MouseAction::from(3), MouseAction::Move);
    assert_eq!(MouseAction::from(4), MouseAction::NoAction);
    assert_eq!(MouseAction::from(u32::MAX), MouseAction::NoAction);
}

#[test]
fn mouse_buttons_by_number() {
    assert_eq!(MouseButton::from_code(0), MouseButton::NoneButton);
    assert_eq!(MouseButton::from_code(1), MouseButton::LeftButton);
    assert_eq!(MouseButton::from_code(2), MouseButton::RightButton);
    assert_eq!(MouseButton::from_code(4), MouseButton::MiddleButton);
    assert_eq!(MouseButton::from_code(8), MouseButton::BackButton);
    assert_eq!(MouseButton::from_code(16), MouseButton::ForwardButton);
    assert!(!MouseButton::is_code(3));
    assert!(!MouseButton::is_code(32));
    assert!(MouseButton::is_code(16));
}

#[test]
fn raw_event_is_read_field_by_field() {
    let data = MouseEventData::from_raw(raw(2, 8));
    assert_eq!(f32::from_bits(data.x.bits), 1.5);
    assert_eq!(f32::from_bits(data.y.bits), -2.0);
    assert_eq!(f32::from_bits(data.screen_x.bits), 10.0);
    assert_eq!(f32::from_bits(data.screen_y.bits), 20.0);
    assert_eq!(data.timestamp, 99);
    assert_eq!(data.action, MouseAction::Release);
    assert_eq!(data.button, MouseButton::BackButton);
}

#[test]
fn hover_has_no_position() {
    let enter = MouseEventData::hover(true);
    assert_eq!(enter.action, MouseAction::HoverEnter);
    assert_eq!(enter.x, bits(0.0));
    assert_eq!(enter.button, MouseButton::NoneButton);
    let leave = MouseEventData::hover(false);
    assert_eq!(leave.action, MouseAction::HoverLeave);
    assert_eq!(MouseEventData { action: MouseAction::NoAction, ..leave }, MouseEventData::default());
}

#[test]
fn mouse_event_goes_to_the_last_callback() {
    let mut slot: Option<&str> = None;
    assert!(dispatch_mouse_event(&slot, 1, 2, 0, Some(raw(1, 1))).is_none());
    set_mouse_event_callback(&mut slot, "first");
    set_mouse_event_callback(&mut slot, "second");
    assert!(dispatch_mouse_event(&slot, 1, 2, -1, None).is_none());
    let (callback, delivery) = dispatch_mouse_event(&slot, 1, 2, 0, Some(raw(1, 1))).unwrap();
    assert_eq!(*callback, "second");
    assert_eq!(delivery.component, 1);
    assert_eq!(delivery.window, 2);
    assert_eq!(delivery.data, MouseEventData::from_raw(raw(1, 1)));
}

#[test]
fn hover_event_has_no_window() {
    let mut slot: Option<&str> = None;
    assert!(dispatch_hover_event(&slot, 5, true).is_none());
    set_mouse_event_callback(&mut slot, "callback");
    let (callback, delivery) = dispatch_hover_event(&slot, 5, false).unwrap();
    assert_eq!(*callback, "callback");
    assert_eq!(delivery.component, 5);
    assert_eq!(delivery.window, 0);
    assert_eq!(delivery.data.action, MouseAction::HoverLeave);
}

#[test]
fn idle_scroll_events_are_skipped() {
    let mut slot: Option<&str> = None;
    assert!(dispatch_axis_event(&slot, Some(reading(1.0, 0.0, 0.0))).is_none());
    set_axis_event_callback(&mut slot, "callback");
    assert!(dispatch_axis_event(&slot, None).is_none());
    assert!(dispatch_axis_event(&slot, Some(reading(0.0, 0.0, 0.0))).is_none());
    assert!(dispatch_axis_event(&slot, Some(reading(-0.0, 0.0, -0.0))).is_none());
    assert!(dispatch_axis_event(&slot, Some(reading(0.0, f32::NAN, 0.0))).is_some());
    assert!(dispatch_axis_event(&slot, Some(reading(0.0, 0.0, 1.0))).is_some());
    assert!(dispatch_axis_event(&slot, Some(reading(f32::MIN_POSITIVE, 0.0, 0.0))).is_some());
    let (callback, data) = dispatch_axis_event(&slot, Some(reading(1.0, -3.0, 0.0))).unwrap();
    assert_eq!(*callback, "callback");
    assert_eq!(
        data,
        AxisEventData {
            delta_x: bits(1.0),
            delta_y: bits(-3.0),
            pinch_scale: bits(0.0),
            source_type: InputSourceType::Touchpad,
            timestamp: 123_456_789,
        }
    );
    assert_eq!(AxisEventData::default().source_type, InputSourceType::Unknown);
}

#[test]
fn failing_to_register_the_mouse_is_fatal() {
    match register_mouse_callbacks().after(-1) {
        MouseRegistration::Failed(reason) => {
            assert_eq!(reason, "XComponent register mouse event callback failed")
        }
        _ => panic!("expected a failure"),
    }
}

#[test]
fn failing_to_register_scrolling_is_not_fatal() {
    let next = register_mouse_callbacks().after(0);
    assert!(matches!(
        next,
        MouseRegistration::RegisterAxis { event_type: ARKUI_UIINPUTEVENT_TYPE_AXIS }
    ));
    assert!(matches!(next.after(-1), MouseRegistration::Done { axis: false }));
    assert!(matches!(
        register_mouse_callbacks().after(0).after(0),
        MouseRegistration::Done { axis: true }
    ));
}
