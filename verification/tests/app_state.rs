use openharmony_ability::app::{KeyboardRequest, OpenHarmonyApp, SaveLoader, SaveSaver};
use openharmony_ability::avoid_area::AvoidAreaSweep;
use openharmony_ability::context::AbilityInitContext;
use openharmony_ability::event::{Event, InputEvent, IntervalInfo};
use openharmony_ability::geometry::{
    AvoidArea, AvoidAreaType, Rect, Size, SurfaceOffset, SurfaceSize,
};
use openharmony_ability::inner::FrameRate;
use openharmony_ability::mouse_event::{AxisEventData, MouseEventData};
use openharmony_ability::platform::Platform;
use openharmony_ability::process::Process;
use std::cmp::Ordering;

struct Fake;

impl Platform for Fake {
    type Window = u8;
    type Component = &'static str;
    type Configuration = String;
    type ResourceManager = u16;
    type Waker = char;
    type Ime = u32;
    type EventHandler = &'static str;
    type BackPressInterceptor = bool;
    type TouchData = i8;
    type KeyData = i16;
}

fn process() -> Process<Fake> {
    Process::new('w')
}

fn area(width: i32) -> AvoidArea {
    let rect = Rect { top: 0, left: 0, width, height: 1 };
    AvoidArea {
        visible: true,
        left_rect: rect,
        top_rect: rect,
        right_rect: rect,
        bottom_rect: rect,
    }
}

const SIZE: SurfaceSize = SurfaceSize { width: 0x1_0000_0280, height: 720 };
const OFFSET: SurfaceOffset = SurfaceOffset { x: 11, y: -7 };

#[test]
fn new_app_is_blank() {
    let mut process = process();
    let app = OpenHarmonyApp::new(&mut process);
    assert_eq!(app.load(), None);
    assert_eq!(app.config(), "");
    assert_eq!(app.content_rect(), Rect::default());
    assert_eq!(app.window_rect(), Rect { top: 0, left: 0, width: 0, height: 0 });
    assert!(app.avoid_areas().is_empty());
    assert_eq!(app.native_window(), None);
    assert!(app.event_handler().is_none());
    assert!(app.ime().is_none());
    assert!(app.back_press_interceptor().is_none());
    assert!(app.init_context().base_path.is_none());
    assert_eq!(app.create_waker(&process), 'w');
}

#[test]
fn apps_are_numbered_and_ordered() {
    let mut process = process();
    let a = OpenHarmonyApp::new(&mut process);
    let b = OpenHarmonyApp::new(&mut process);
    assert_eq!(a.inner().id(), 0);
    assert_eq!(b.inner().id(), 1);
    assert!(a.inner() == a.inner());
    assert!(a.inner() != b.inner());
    assert!(a.inner() < b.inner());
    assert_eq!(a.cmp(&b), Ordering::Less);
    assert_eq!(b.cmp(&a), Ordering::Greater);
    assert_eq!(a.cmp(&a), Ordering::Equal);
    assert_eq!(b.inner().partial_cmp(a.inner()), Some(Ordering::Greater));
    assert_eq!(b.inner().debug_string(), "OpenHarmonyApp { id: 1 }");
}

#[test]
fn numbers_start_over_after_the_last() {
    let mut process = process();
    process.next_app_id = i64::MAX;
    assert_eq!(process.allocate_id(), i64::MAX);
    assert_eq!(process.allocate_id(), i64::MIN);
    assert_eq!(process.allocate_id(), i64::MIN + 1);
}

#[test]
fn saved_state_is_loaded() {
    let mut app = OpenHarmonyApp::new(&mut process());
    assert_eq!(app.load(), None);
    app.save(vec![1, 2, 3]);
    assert_eq!(app.load(), Some(vec![1, 2, 3]));
    assert_eq!(app.inner().load(), Some(vec![1, 2, 3]));
    SaveSaver { app: &mut app }.save(vec![4]);
    assert_eq!(SaveLoader { app: &app }.load(), Some(vec![4]));
    app.save(vec![]);
    assert_eq!(app.load(), Some(vec![]));
}

#[test]
fn context_reads_back() {
    let mut app = OpenHarmonyApp::new(&mut process());
    let context = AbilityInitContext {
        base_path: Some("/base".to_string()),
        pref_path: Some("/pref".to_string()),
        preferred_locales: None,
        module_name: Some("entry".to_string()),
        sdk_api_version: Some(14),
        distribution_api_version: None,
    };
    app.set_init_context(context.clone());
    assert_eq!(app.base_path().as_deref(), Some("/base"));
    assert_eq!(app.pref_path().as_deref(), Some("/pref"));
    assert_eq!(app.preferred_locales(), None);
    assert_eq!(app.module_name().as_deref(), Some("entry"));
    assert_eq!(app.init_context().sdk_api_version, Some(14));
}

#[test]
fn resource_manager_belongs_to_the_process() {
    let mut process = process();
    let mut a = OpenHarmonyApp::new(&mut process);
    let b = OpenHarmonyApp::new(&mut process);
    assert_eq!(b.resource_manager(&process), None);
    a.set_resource_manager(&mut process, Some(9));
    assert_eq!(b.resource_manager(&process), Some(9));
    a.set_resource_manager(&mut process, None);
    assert_eq!(a.resource_manager(&process), None);
}

#[test]
fn frame_rate_needs_a_component() {
    let mut app = OpenHarmonyApp::new(&mut process());
    assert!(app.set_frame_rate(30, 120, 60).is_none());
    app.set_xcomponent("component");
    let (component, rate) = app.set_frame_rate(30, 120, 60).unwrap();
    assert_eq!(*component, "component");
    assert_eq!(rate, FrameRate { min: 30, max: 120, expected: 60 });
}

#[test]
fn keyboard_needs_an_input_method() {
    let mut app = OpenHarmonyApp::new(&mut process());
    assert!(app.show_keyboard().is_none());
    assert!(app.hide_keyboard().is_none());
    app.on_surface_created(SIZE, OFFSET, None, 77);
    assert_eq!(app.show_keyboard(), Some((&77, KeyboardRequest::Show)));
    assert_eq!(app.hide_keyboard(), Some((&77, KeyboardRequest::Hide)));
    assert_eq!(app.ime(), Some(&77));
}

#[test]
fn first_handler_of_the_process_stays() {
    let mut process = process();
    let mut a = OpenHarmonyApp::new(&mut process);
    let mut b = OpenHarmonyApp::new(&mut process);
    a.run_loop(&mut process, "first");
    a.run_loop(&mut process, "second");
    b.run_loop(&mut process, "third");
    assert_eq!(a.event_handler(), Some(&"first"));
    assert_eq!(b.event_handler(), None);
    assert!(process.has_event);
}

#[test]
fn back_press_is_intercepted_unless_somebody_objects() {
    let mut app = OpenHarmonyApp::new(&mut process());
    assert!(app.get_back_press_interceptor(None));
    assert!(app.get_back_press_interceptor(Some(false)));
    app.on_back_press_intercept(true);
    app.on_back_press_intercept(false);
    let answer = app.back_press_interceptor().copied();
    assert_eq!(answer, Some(false));
    assert!(!app.get_back_press_interceptor(answer));
    assert!(app.get_back_press_interceptor(Some(true)));
}

#[test]
fn created_surface_is_noted_even_without_a_handler() {
    let mut process = process();
    let mut app = OpenHarmonyApp::new(&mut process);
    assert!(app.on_surface_created(SIZE, OFFSET, Some(3), 1).is_none());
    assert_eq!(app.content_rect(), Rect { top: -7, left: 11, width: 0x280, height: 720 });
    assert_eq!(app.native_window(), Some(3));
    app.run_loop(&mut process, "handler");
    assert!(matches!(
        app.on_surface_created(SIZE, OFFSET, None, 2),
        Some(Event::SurfaceCreate)
    ));
    assert_eq!(app.native_window(), None);
    assert_eq!(app.ime(), Some(&2));
}

#[test]
fn changed_surface_is_noted_only_with_a_handler() {
    let mut process = process();
    let mut app = OpenHarmonyApp::new(&mut process);
    assert!(app.on_surface_changed(SIZE, OFFSET).is_none());
    assert_eq!(app.content_rect(), Rect::default());
    app.run_loop(&mut process, "handler");
    match app.on_surface_changed(SIZE, OFFSET) {
        Some(Event::WindowResize(size)) => assert_eq!(size, Size { width: 0x280, height: 720 }),
        _ => panic!("expected a resize"),
    }
    assert_eq!(app.content_rect(), Rect { top: -7, left: 11, width: 0x280, height: 720 });
}

#[test]
fn events_reach_the_handler_only() {
    let mut process = process();
    let mut app = OpenHarmonyApp::new(&mut process);
    assert!(app.on_surface_destroyed().is_none());
    assert!(app.on_frame(1, 2).is_none());
    assert!(app.on_touch_event(1).is_none());
    app.run_loop(&mut process, "handler");
    assert!(matches!(app.on_surface_destroyed(), Some(Event::SurfaceDestroy)));
    match app.on_frame(100, 90) {
        Some(Event::WindowRedraw(info)) => {
            assert_eq!(info, IntervalInfo { time_stamp: 90, target_time_stamp: 100 })
        }
        _ => panic!("expected a redraw"),
    }
    assert!(matches!(
        app.on_touch_event(5),
        Some(Event::Input(InputEvent::TouchEvent(5)))
    ));
    assert!(matches!(app.on_key_event(6), Some(Event::Input(InputEvent::KeyEvent(6)))));
    match app.on_mouse_event(MouseEventData::hover(true)) {
        Some(Event::Input(InputEvent::MouseEvent(data))) => {
            assert_eq!(data, MouseEventData::hover(true))
        }
        _ => panic!("expected a mouse event"),
    }
    match app.on_axis_event(AxisEventData::default()) {
        Some(Event::Input(InputEvent::AxisEvent(data))) => {
            assert_eq!(data, AxisEventData::default())
        }
        _ => panic!("expected a scroll event"),
    }
}

#[test]
fn avoid_area_is_fetched_once() {
    let mut app = OpenHarmonyApp::new(&mut process());
    let cutout = AvoidAreaType::Cutout;
    assert!(app.needs_avoid_area(cutout));
    assert_eq!(app.avoid_area(cutout, None), None);
    assert_eq!(app.avoid_area(cutout, Some((cutout, area(1)))), Some(area(1)));
    assert!(!app.needs_avoid_area(cutout));
    assert_eq!(app.avoid_area(cutout, Some((cutout, area(2)))), Some(area(1)));
    assert_eq!(app.inner().avoid_area(cutout), Some(area(1)));
}

#[test]
fn avoid_area_is_kept_under_the_type_that_came_back() {
    let mut app = OpenHarmonyApp::new(&mut process());
    let fetched = Some((AvoidAreaType::System, area(4)));
    assert_eq!(app.avoid_area(AvoidAreaType::Keyboard, fetched), None);
    assert_eq!(app.avoid_area(AvoidAreaType::System, None), Some(area(4)));
}

fn sweep(
    app: &mut OpenHarmonyApp<Fake>,
    reply: impl Fn(AvoidAreaType) -> Option<(AvoidAreaType, AvoidArea)>,
) -> Vec<AvoidAreaType> {
    let mut asked = Vec::new();
    let mut sweep: AvoidAreaSweep = app.ensure_avoid_areas_cached();
    while let Some(area_type) = sweep.next(app) {
        asked.push(area_type);
        app.ensure_avoid_area_cached(area_type, reply(area_type));
    }
    asked
}

#[test]
fn all_default_areas_are_fetched_where_none_is_known() {
    let mut app = OpenHarmonyApp::new(&mut process());
    let asked = sweep(&mut app, |t| {
        if t == AvoidAreaType::Cutout {
            None
        } else {
            Some((t, area(t.code())))
        }
    });
    assert_eq!(
        asked,
        vec![
            AvoidAreaType::System,
            AvoidAreaType::Cutout,
            AvoidAreaType::SystemGesture,
            AvoidAreaType::Keyboard,
            AvoidAreaType::NavigationIndicator,
        ]
    );
    let areas = app.avoid_areas();
    assert_eq!(areas.len(), 4);
    assert_eq!(areas.get(&4), Some(&area(4)));
    assert_eq!(areas.get(&1), None);
}

#[test]
fn a_sweep_skips_what_became_known_meanwhile() {
    let mut app = OpenHarmonyApp::new(&mut process());
    let asked = sweep(&mut app, |_| Some((AvoidAreaType::Keyboard, area(8))));
    assert_eq!(
        asked,
        vec![
            AvoidAreaType::System,
            AvoidAreaType::Cutout,
            AvoidAreaType::SystemGesture,
            AvoidAreaType::NavigationIndicator,
        ]
    );
    assert_eq!(app.avoid_areas().len(), 1);
}

#[test]
fn nothing_is_fetched_where_an_area_is_known() {
    let mut app = OpenHarmonyApp::new(&mut process());
    app.avoid_area(AvoidAreaType::Unknown(9), Some((AvoidAreaType::Unknown(9), area(1))));
    assert!(sweep(&mut app, |t| Some((t, area(2)))).is_empty());
    assert_eq!(app.avoid_areas().len(), 1);
}

#[test]
fn a_copy_keeps_the_state() {
    let mut process = process();
    let mut app = OpenHarmonyApp::new(&mut process);
    OpenHarmonyApp::new(&mut process);
    app.save(vec![9]);
    app.set_xcomponent("component");
    app.on_surface_created(SIZE, OFFSET, Some(3), 1);
    app.avoid_area(AvoidAreaType::System, Some((AvoidAreaType::System, area(5))));
    let copy = app.inner().clone();
    assert!(copy == *app.inner());
    assert_eq!(copy.id(), 0);
    assert_eq!(copy.load(), Some(vec![9]));
    assert_eq!(copy.content_rect(), app.content_rect());
    assert_eq!(copy.native_window(), Some(3));
    assert_eq!(copy.avoid_area(AvoidAreaType::System), Some(area(5)));
    assert_eq!(*copy.set_frame_rate(1, 2, 3).unwrap().0, "component");
}
