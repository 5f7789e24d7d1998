//! An app: its state, and what is registered for it.
use std::collections::HashMap;
use vstd::prelude::*;
use crate::avoid_area::AvoidAreaSweep;
use crate::context::AbilityInitContext;
use crate::event::{Event, InputEvent, IntervalInfo};
use crate::geometry::{
    as_i64, rect_of_surface, reinterpret_as_i64, size_of_surface, surface_rect, surface_size, AvoidArea,
    AvoidAreaType, Rect, SurfaceOffset, SurfaceSize,
};
use crate::helper::{ColorMode, HelperCall, HelperFunction};
use crate::inner::{AppState, FrameRate, OpenHarmonyAppInner};
use crate::mouse_event::{AxisEventData, MouseEventData};
use crate::permission::{PermissionCall, PermissionRequest};
use crate::platform::Platform;
use crate::process::{next_id, Process};
use crate::restart::Restart;

verus! {

/// An app: its state, and what is registered for it.
#[verifier::ext_equal]
#[verifier::reject_recursive_types(P)]
pub ghost struct AppParts<P: Platform> {
    pub inner: AppState<P>,
    pub event_loop: Option<P::EventHandler>,
    pub back_press_interceptor: Option<P::BackPressInterceptor>,
    pub ime: Option<P::Ime>,
}

impl<P: Platform> AppParts<P> {
    /// The event, where somebody receives it.
    pub open spec fn delivered(self, event: Event<P>) -> Option<Event<P>> {
        if self.event_loop is Some {
            Some(event)
        } else {
            None
        }
    }
}

/// The handler that an app has after `handler` was offered to it. Once some app of
/// the process has a handler, none is accepted any more.
pub open spec fn handler_after<H>(has_event: bool, current: Option<H>, handler: H) -> Option<H> {
    if has_event {
        current
    } else {
        Some(handler)
    }
}

/// What is asked of the keyboard.
#[derive(Clone, Copy, Debug, PartialEq, Eq, Structural)]
pub enum KeyboardRequest {
    Show,
    Hide,
}

/// An app: its state, and what is registered for it.
#[verifier::reject_recursive_types(P)]
pub struct OpenHarmonyApp<P: Platform> {
    inner: OpenHarmonyAppInner<P>,
    event_loop: Option<P::EventHandler>,
    back_press_interceptor: Option<P::BackPressInterceptor>,
    ime: Option<P::Ime>,
}

impl<P: Platform> View for OpenHarmonyApp<P> {
    type V = AppParts<P>;

    closed spec fn view(&self) -> AppParts<P> {
        AppParts {
            inner: self.inner@,
            event_loop: self.event_loop,
            back_press_interceptor: self.back_press_interceptor,
            ime: self.ime,
        }
    }
}

impl<P: Platform> OpenHarmonyApp<P> {
    /// A new app with nothing registered for it.
    pub fn new(process: &mut Process<P>) -> (r: OpenHarmonyApp<P>)
        ensures
            r@ == (AppParts::<P> {
                inner: AppState::initial(old(process).next_app_id, r@.inner.configuration),
                event_loop: None,
                back_press_interceptor: None,
                ime: None,
            }),
            call_ensures(P::Configuration::default, (), r@.inner.configuration),
            *final(process) == (Process {
                next_app_id: next_id(old(process).next_app_id),
                ..*old(process)
            }),
    {
        OpenHarmonyApp {
            inner: OpenHarmonyAppInner::new(process),
            event_loop: None,
            back_press_interceptor: None,
            ime: None,
        }
    }

    /// The state of the app.
    pub fn inner(&self) -> (r: &OpenHarmonyAppInner<P>)
        ensures
            r@ == self@.inner,
    {
        &self.inner
    }

    /// Saves the current app state.
    pub fn save(&mut self, state: Vec<u8>)
        ensures
            final(self)@ == (AppParts { inner: old(self)@.inner.after_save(state@), ..old(self)@ }),
    {
        self.inner.save(state);
    }

    /// Loads the current app state.
    pub fn load(&self) -> (r: Option<Vec<u8>>)
        ensures
            match r {
                Some(state) => self@.inner.loaded() == Some(state@),
                None => self@.inner.loaded() is None,
            },
    {
        self.inner.load()
    }

    /// The frame rates to ask for, and the component to ask. Without a component
    /// there is nothing to ask.
    pub fn set_frame_rate(&self, min: i32, max: i32, expected: i32) -> (r: Option<
        (&P::Component, FrameRate),
    >)
        ensures
            match self@.inner.xcomponent {
                Some(component) => {
                    &&& r matches Some((asked, rate))
                    &&& *asked == component
                    &&& rate == FrameRate { min, max, expected }
                },
                None => r is None,
            },
    {
        self.inner.set_frame_rate(min, max, expected)
    }

    /// Takes note of what the ability told the app.
    pub fn set_init_context(&mut self, context: AbilityInitContext)
        ensures
            final(self)@ == (AppParts {
                inner: AppState { init_context: context, ..old(self)@.inner },
                ..old(self)@
            }),
    {
        self.inner.set_init_context(context);
    }

    /// What the ability told the app when it started.
    pub fn init_context(&self) -> (r: AbilityInitContext)
        ensures
            r == self@.inner.init_context,
    {
        self.inner.init_context()
    }

    /// The name of the app's module.
    pub fn module_name(&self) -> (r: Option<String>)
        ensures
            r == self@.inner.init_context.module_name,
    {
        self.init_context().module_name
    }

    /// Where the app's files are.
    pub fn base_path(&self) -> (r: Option<String>)
        ensures
            r == self@.inner.init_context.base_path,
    {
        self.init_context().base_path
    }

    /// Where the app's preferences are.
    pub fn pref_path(&self) -> (r: Option<String>)
        ensures
            r == self@.inner.init_context.pref_path,
    {
        self.init_context().pref_path
    }

    /// The locales that the user prefers.
    pub fn preferred_locales(&self) -> (r: Option<String>)
        ensures
            r == self@.inner.init_context.preferred_locales,
    {
        self.init_context().preferred_locales
    }

    /// The resource manager of the process.
    pub fn resource_manager(&self, process: &Process<P>) -> (r: Option<P::ResourceManager>)
        ensures
            match process.resource_manager {
                Some(manager) => r is Some && cloned(manager, r->Some_0),
                None => r is None,
            },
    {
        self.inner.resource_manager(process)
    }

    /// Sets or takes away the resource manager of the process.
    pub fn set_resource_manager(
        &mut self,
        process: &mut Process<P>,
        resource_manager: Option<P::ResourceManager>,
    )
        ensures
            final(self)@ == old(self)@,
            *final(process) == (Process { resource_manager, ..*old(process) }),
    {
        self.inner.set_resource_manager(process, resource_manager);
    }

    /// What to ask of the input method to have the keyboard shown. Without an input
    /// method there is nothing to ask.
    pub fn show_keyboard(&self) -> (r: Option<(&P::Ime, KeyboardRequest)>)
        ensures
            match self@.ime {
                Some(ime) => r == Some((&ime, KeyboardRequest::Show)),
                None => r is None,
            },
    {
        match &self.ime {
            Some(ime) => Some((ime, KeyboardRequest::Show)),
            None => None,
        }
    }

    /// What to ask of the input method to have the keyboard hidden. Without an input
    /// method there is nothing to ask.
    pub fn hide_keyboard(&self) -> (r: Option<(&P::Ime, KeyboardRequest)>)
        ensures
            match self@.ime {
                Some(ime) => r == Some((&ime, KeyboardRequest::Hide)),
                None => r is None,
            },
    {
        match &self.ime {
            Some(ime) => Some((ime, KeyboardRequest::Hide)),
            None => None,
        }
    }

    /// What wakes the event loop.
    pub fn create_waker(&self, process: &Process<P>) -> (r: P::Waker)
        ensures
            cloned(process.waker, r),
    {
        self.inner.create_waker(process)
    }

    /// The system configuration.
    pub fn config(&self) -> (r: P::Configuration)
        ensures
            cloned(self@.inner.configuration, r),
    {
        self.inner.config()
    }

    /// The rectangle of the app's surface.
    pub fn content_rect(&self) -> (r: Rect)
        ensures
            r == self@.inner.rect,
    {
        self.inner.content_rect()
    }

    /// The rectangle of the app's window.
    pub fn window_rect(&self) -> (r: Rect)
        ensures
            r == self@.inner.window_rect,
    {
        self.inner.window_rect()
    }

    /// Starts the call that asks the helper for the avoid area of a type.
    pub fn fetch_avoid_area_from_helper(&self, area_type: AvoidAreaType) -> (r: HelperCall)
        ensures
            r.is_start(HelperFunction::GetWindowAvoidArea, area_type.code_of()),
    {
        HelperCall::start(HelperFunction::GetWindowAvoidArea, area_type.code())
    }

    /// Whether the avoid area of a type has to be fetched.
    pub fn needs_avoid_area(&self, area_type: AvoidAreaType) -> (r: bool)
        ensures
            r == (self@.inner.known_area(area_type) is None),
    {
        self.inner.avoid_area(area_type).is_none()
    }

    /// Takes note of an avoid area that was fetched because that of `area_type` was
    /// not known. What is known already is not replaced by it.
    pub fn ensure_avoid_area_cached(
        &mut self,
        area_type: AvoidAreaType,
        fetched: Option<(AvoidAreaType, AvoidArea)>,
    )
        ensures
            final(self)@ == (AppParts {
                inner: old(self)@.inner.after_fetch(area_type, fetched),
                ..old(self)@
            }),
    {
        if self.inner.avoid_area(area_type).is_some() {
            return ;
        }
        if let Some((fetched_type, area)) = fetched {
            self.inner.set_avoid_area(fetched_type, area);
        }
    }

    /// Starts finding out which avoid areas have to be fetched before all of them can
    /// be handed out. Where some are known, no more are fetched.
    pub fn ensure_avoid_areas_cached(&self) -> (r: AvoidAreaSweep)
        ensures
            if self@.inner.avoid_areas.is_empty() {
                r.is_start()
            } else {
                r.is_over()
            },
    {
        if !self.inner.knows_no_area() {
            return AvoidAreaSweep::over();
        }
        AvoidAreaSweep::start()
    }

    /// The avoid area of a type, given what was fetched where it was not known.
    pub fn avoid_area(
        &mut self,
        area_type: AvoidAreaType,
        fetched: Option<(AvoidAreaType, AvoidArea)>,
    ) -> (r: Option<AvoidArea>)
        ensures
            final(self)@ == (AppParts {
                inner: old(self)@.inner.after_fetch(area_type, fetched),
                ..old(self)@
            }),
            r == final(self)@.inner.known_area(area_type),
    {
        self.ensure_avoid_area_cached(area_type, fetched);
        self.inner.avoid_area(area_type)
    }

    /// All known avoid areas, by the number of their type.
    pub fn avoid_areas(&self) -> (r: HashMap<i32, AvoidArea>)
        ensures
            r@ == self@.inner.avoid_areas,
    {
        self.inner.avoid_areas()
    }

    /// The native window of the app's surface.
    pub fn native_window(&self) -> (r: Option<P::Window>)
        ensures
            r == self@.inner.raw_window,
    {
        self.inner.native_window()
    }

    /// Starts the call that ends the app with `code`.
    pub fn exit(&self, code: i32) -> (r: HelperCall)
        ensures
            r.is_start(HelperFunction::Exit, code),
    {
        self.inner.exit(code)
    }

    /// Starts restarting the app.
    pub fn restart(&self) -> (r: Restart)
        ensures
            r.stage_of() is Starting,
    {
        self.inner.restart()
    }

    /// Starts the call that sets the color mode of the app.
    pub fn set_color_mode(&self, mode: ColorMode) -> (r: HelperCall)
        ensures
            r.is_start(HelperFunction::SetColorMode, mode.code_of()),
    {
        self.inner.set_color_mode(mode)
    }

    /// Starts asking the user for permissions.
    pub fn request_permission(&self, request: &PermissionRequest) -> (r: PermissionCall)
        ensures
            r.request_of().same_as(*request),
            r.requested() == request.names(),
            r.stage_of() is Starting,
    {
        PermissionCall::start(request)
    }

    /// Registers the handler of the app's events, unless the process has one.
    pub fn run_loop(&mut self, process: &mut Process<P>, event_handle: P::EventHandler)
        ensures
            final(self)@ == (AppParts {
                event_loop: handler_after(
                    old(process).has_event,
                    old(self)@.event_loop,
                    event_handle,
                ),
                ..old(self)@
            }),
            *final(process) == (Process { has_event: true, ..*old(process) }),
    {
        if process.has_event {
            return ;
        }
        self.event_loop = Some(event_handle);
        process.has_event = true;
    }

    /// Registers who decides whether a back press is intercepted, in place of who
    /// decided before.
    pub fn on_back_press_intercept(&mut self, interceptor: P::BackPressInterceptor)
        ensures
            final(self)@ == (AppParts { back_press_interceptor: Some(interceptor), ..old(self)@ }),
    {
        self.back_press_interceptor = Some(interceptor);
    }

    /// Who decides whether a back press is intercepted.
    pub fn back_press_interceptor(&self) -> (r: Option<&P::BackPressInterceptor>)
        ensures
            match self@.back_press_interceptor {
                Some(interceptor) => r == Some(&interceptor),
                None => r is None,
            },
    {
        self.back_press_interceptor.as_ref()
    }

    /// Whether a back press is intercepted, given the answer of the interceptor. It is
    /// where nobody decides.
    pub fn get_back_press_interceptor(&self, answer: Option<bool>) -> (r: bool)
        ensures
            r == match (self@.back_press_interceptor, answer) {
                (Some(_), Some(intercepted)) => intercepted,
                _ => true,
            },
    {
        if self.back_press_interceptor.is_some() {
            answer.unwrap_or(true)
        } else {
            true
        }
    }

    /// Who receives the app's events.
    pub fn event_handler(&self) -> (r: Option<&P::EventHandler>)
        ensures
            match self@.event_loop {
                Some(handler) => r == Some(&handler),
                None => r is None,
            },
    {
        self.event_loop.as_ref()
    }

    /// The app's input method.
    pub fn ime(&self) -> (r: Option<&P::Ime>)
        ensures
            match self@.ime {
                Some(ime) => r == Some(&ime),
                None => r is None,
            },
    {
        self.ime.as_ref()
    }

    /// Takes note of the component that is mounted for the app.
    pub fn set_xcomponent(&mut self, component: P::Component)
        ensures
            final(self)@ == (AppParts {
                inner: AppState { xcomponent: Some(component), ..old(self)@.inner },
                ..old(self)@
            }),
    {
        self.inner.set_xcomponent(component);
    }

    fn deliver(&self, event: Event<P>) -> (r: Option<Event<P>>)
        ensures
            r == self@.delivered(event),
    {
        if self.event_loop.is_some() {
            Some(event)
        } else {
            None
        }
    }

    /// The app's surface was created. Its place, its window and the input method are
    /// noted; the result is the event to deliver.
    pub fn on_surface_created(
        &mut self,
        size: SurfaceSize,
        offset: SurfaceOffset,
        window: Option<P::Window>,
        ime: P::Ime,
    ) -> (r: Option<Event<P>>)
        ensures
            final(self)@ == (AppParts {
                inner: AppState {
                    rect: rect_of_surface(size, offset),
                    raw_window: window,
                    ..old(self)@.inner
                },
                ime: Some(ime),
                ..old(self)@
            }),
            r == old(self)@.delivered(Event::SurfaceCreate),
    {
        self.inner.set_content_rect(surface_rect(size, offset));
        self.inner.set_native_window(window);
        self.ime = Some(ime);
        self.deliver(Event::SurfaceCreate)
    }

    /// A frame is drawn at `time_stamp`, to be shown at `time`; the result is the
    /// event to deliver.
    pub fn on_frame(&self, time: u64, time_stamp: u64) -> (r: Option<Event<P>>)
        ensures
            r == self@.delivered(
                Event::WindowRedraw(
                    IntervalInfo {
                        time_stamp: as_i64(time_stamp) as i64,
                        target_time_stamp: as_i64(time) as i64,
                    },
                ),
            ),
    {
        self.deliver(
            Event::WindowRedraw(
                IntervalInfo {
                    time_stamp: reinterpret_as_i64(time_stamp),
                    target_time_stamp: reinterpret_as_i64(time),
                },
            ),
        )
    }

    /// The app's surface was destroyed; the result is the event to deliver.
    pub fn on_surface_destroyed(&self) -> (r: Option<Event<P>>)
        ensures
            r == self@.delivered(Event::SurfaceDestroy),
    {
        self.deliver(Event::SurfaceDestroy)
    }

    /// The app's surface has another place or size. Where somebody receives the
    /// event, the new place is noted and the event is to be delivered; else neither
    /// happens.
    pub fn on_surface_changed(&mut self, size: SurfaceSize, offset: SurfaceOffset) -> (r: Option<
        Event<P>,
    >)
        ensures
            if old(self)@.event_loop is Some {
                &&& final(self)@ == (AppParts {
                    inner: AppState { rect: rect_of_surface(size, offset), ..old(self)@.inner },
                    ..old(self)@
                })
                &&& r == Some(Event::<P>::WindowResize(size_of_surface(size)))
            } else {
                final(self)@ == old(self)@ && r is None
            },
    {
        if self.event_loop.is_some() {
            self.inner.set_content_rect(surface_rect(size, offset));
            Some(Event::WindowResize(surface_size(size)))
        } else {
            None
        }
    }

    /// The user touched the surface; the result is the event to deliver.
    pub fn on_touch_event(&self, data: P::TouchData) -> (r: Option<Event<P>>)
        ensures
            r == self@.delivered(Event::Input(InputEvent::TouchEvent(data))),
    {
        self.deliver(Event::Input(InputEvent::TouchEvent(data)))
    }

    /// The user pressed a key; the result is the event to deliver.
    pub fn on_key_event(&self, data: P::KeyData) -> (r: Option<Event<P>>)
        ensures
            r == self@.delivered(Event::Input(InputEvent::KeyEvent(data))),
    {
        self.deliver(Event::Input(InputEvent::KeyEvent(data)))
    }

    /// The user moved the mouse or pressed a button; the result is the event to
    /// deliver.
    pub fn on_mouse_event(&self, data: MouseEventData) -> (r: Option<Event<P>>)
        ensures
            r == self@.delivered(Event::Input(InputEvent::MouseEvent(data))),
    {
        self.deliver(Event::Input(InputEvent::MouseEvent(data)))
    }

    /// The user scrolled; the result is the event to deliver.
    pub fn on_axis_event(&self, data: AxisEventData) -> (r: Option<Event<P>>)
        ensures
            r == self@.delivered(Event::Input(InputEvent::AxisEvent(data))),
    {
        self.deliver(Event::Input(InputEvent::AxisEvent(data)))
    }
}

/// Saves the state of an app.
#[verifier::reject_recursive_types(P)]
pub struct SaveSaver<'a, P: Platform> {
    pub app: &'a mut OpenHarmonyApp<P>,
}

impl<'a, P: Platform> SaveSaver<'a, P> {
    /// Saves the current app state.
    pub fn save(&mut self, state: Vec<u8>)
        ensures
            final(self).app@ == (AppParts {
                inner: old(self).app@.inner.after_save(state@),
                ..old(self).app@
            }),
            *final(final(self).app) == *final(old(self).app),
    {
        self.app.save(state);
    }
}

/// Loads the state of an app.
#[verifier::reject_recursive_types(P)]
pub struct SaveLoader<'a, P: Platform> {
    pub app: &'a OpenHarmonyApp<P>,
}

impl<'a, P: Platform> SaveLoader<'a, P> {
    /// Loads the current app state.
    pub fn load(&self) -> (r: Option<Vec<u8>>)
        ensures
            match r {
                Some(state) => self.app@.inner.loaded() == Some(state@),
                None => self.app@.inner.loaded() is None,
            },
    {
        self.app.load()
    }
}

/// The first handler of a process stays: whichever app is offered one afterwards
/// keeps what it has.
pub proof fn first_handler_stays<H>(current: Option<H>, other: Option<H>, first: H, second: H)
    ensures
        handler_after(false, current, first) == Some(first),
        handler_after(true, handler_after(false, current, first), second) == Some(first),
        handler_after(true, other, second) == other,
{
}

/// An event is delivered as it is exactly where the app has a handler.
pub proof fn events_reach_the_handler<P: Platform>(app: AppParts<P>, event: Event<P>)
    ensures
        app.event_loop is Some ==> app.delivered(event) == Some(event),
        app.event_loop is None ==> app.delivered(event) is None,
{
}

} // verus!
