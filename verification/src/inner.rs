//! The state of one app.
use std::collections::HashMap;
use vstd::prelude::*;
use crate::avoid_area::stored;
use crate::context::AbilityInitContext;
use crate::geometry::{AvoidArea, AvoidAreaType, Rect};
use crate::helper::{ColorMode, HelperCall, HelperFunction};
use crate::platform::Platform;
use crate::process::{next_id, Process};
use crate::restart::Restart;
use crate::text::{push_signed_decimal, signed_decimal};

verus! {

broadcast use vstd::std_specs::hash::group_hash_axioms;

/// The state of an app.
#[verifier::ext_equal]
#[verifier::reject_recursive_types(P)]
pub ghost struct AppState<P: Platform> {
    pub raw_window: Option<P::Window>,
    pub xcomponent: Option<P::Component>,
    pub state: Seq<u8>,
    /// Whether a state has been saved.
    pub save_state: bool,
    pub id: i64,
    pub configuration: P::Configuration,
    pub rect: Rect,
    pub window_rect: Rect,
    /// The known avoid areas, by the number of their type.
    pub avoid_areas: Map<i32, AvoidArea>,
    pub init_context: AbilityInitContext,
}

impl<P: Platform> AppState<P> {
    /// The state in which an app starts.
    pub open spec fn initial(id: i64, configuration: P::Configuration) -> AppState<P> {
        AppState {
            raw_window: None,
            xcomponent: None,
            state: Seq::empty(),
            save_state: false,
            id,
            configuration,
            rect: Rect::zero(),
            window_rect: Rect::zero(),
            avoid_areas: Map::empty(),
            init_context: AbilityInitContext::empty(),
        }
    }

    /// The saved bytes, where some have been saved.
    pub open spec fn loaded(self) -> Option<Seq<u8>> {
        if self.save_state {
            Some(self.state)
        } else {
            None
        }
    }

    /// The state after saving `state`.
    pub open spec fn after_save(self, state: Seq<u8>) -> AppState<P> {
        AppState { state, save_state: true, ..self }
    }

    /// The avoid area of a type, where it is known.
    pub open spec fn known_area(self, area_type: AvoidAreaType) -> Option<AvoidArea> {
        if self.avoid_areas.contains_key(area_type.code_of()) {
            Some(self.avoid_areas[area_type.code_of()])
        } else {
            None
        }
    }

    /// The state after what was fetched for a type has come in. It counts only where
    /// the area of that type was not known.
    pub open spec fn after_fetch(
        self,
        area_type: AvoidAreaType,
        fetched: Option<(AvoidAreaType, AvoidArea)>,
    ) -> AppState<P> {
        if self.known_area(area_type) is Some {
            self
        } else {
            AppState { avoid_areas: stored(self.avoid_areas, fetched), ..self }
        }
    }

    /// The state once an avoid area has become known.
    pub open spec fn with_area(self, area_type: AvoidAreaType, area: AvoidArea) -> AppState<P> {
        AppState { avoid_areas: self.avoid_areas.insert(area_type.code_of(), area), ..self }
    }
}

/// The frame rates that are asked of a surface component.
#[derive(Clone, Copy, Debug, PartialEq, Eq, Structural)]
pub struct FrameRate {
    pub min: i32,
    pub max: i32,
    pub expected: i32,
}

/// The state of one app.
#[verifier::reject_recursive_types(P)]
pub struct OpenHarmonyAppInner<P: Platform> {
    raw_window: Option<P::Window>,
    xcomponent: Option<P::Component>,
    state: Vec<u8>,
    save_state: bool,
    id: i64,
    configuration: P::Configuration,
    rect: Rect,
    window_rect: Rect,
    avoid_areas: HashMap<i32, AvoidArea>,
    init_context: AbilityInitContext,
}

impl<P: Platform> View for OpenHarmonyAppInner<P> {
    type V = AppState<P>;

    closed spec fn view(&self) -> AppState<P> {
        AppState {
            raw_window: self.raw_window,
            xcomponent: self.xcomponent,
            state: self.state@,
            save_state: self.save_state,
            id: self.id,
            configuration: self.configuration,
            rect: self.rect,
            window_rect: self.window_rect,
            avoid_areas: self.avoid_areas@,
            init_context: self.init_context,
        }
    }
}

impl<P: Platform> Clone for OpenHarmonyAppInner<P> where P::Component: Clone {
    fn clone(&self) -> (r: OpenHarmonyAppInner<P>)
        ensures
            r@ == (AppState {
                xcomponent: r@.xcomponent,
                configuration: r@.configuration,
                ..self@
            }),
            match self@.xcomponent {
                Some(component) => r@.xcomponent is Some && cloned(
                    component,
                    r@.xcomponent->Some_0,
                ),
                None => r@.xcomponent is None,
            },
            cloned(self@.configuration, r@.configuration),
    {
        let state: Vec<u8> = self.state.clone();
        assert(state@ =~= self.state@);
        OpenHarmonyAppInner {
            raw_window: self.raw_window,
            xcomponent: match &self.xcomponent {
                Some(component) => Some(component.clone()),
                None => None,
            },
            state,
            save_state: self.save_state,
            id: self.id,
            configuration: self.configuration.clone(),
            rect: self.rect,
            window_rect: self.window_rect,
            avoid_areas: self.avoid_areas.clone(),
            init_context: self.init_context.clone(),
        }
    }
}

impl<P: Platform> OpenHarmonyAppInner<P> {
    /// A new app, under a number of its own.
    pub fn new(process: &mut Process<P>) -> (r: OpenHarmonyAppInner<P>)
        ensures
            r@ == AppState::<P>::initial(old(process).next_app_id, r@.configuration),
            call_ensures(P::Configuration::default, (), r@.configuration),
            *final(process) == (Process {
                next_app_id: next_id(old(process).next_app_id),
                ..*old(process)
            }),
    {
        let id: i64 = process.allocate_id();
        let r: OpenHarmonyAppInner<P> = OpenHarmonyAppInner {
            raw_window: None,
            xcomponent: None,
            state: Vec::new(),
            save_state: false,
            id,
            configuration: P::Configuration::default(),
            rect: Rect::default(),
            window_rect: Rect::default(),
            avoid_areas: HashMap::new(),
            init_context: AbilityInitContext::default(),
        };
        assert(r@ =~= AppState::<P>::initial(id, r@.configuration));
        r
    }

    /// The app's number.
    pub fn id(&self) -> (r: i64)
        ensures
            r == self@.id,
    {
        self.id
    }

    /// Loads the current app state.
    pub fn load(&self) -> (r: Option<Vec<u8>>)
        ensures
            match r {
                Some(state) => self@.loaded() == Some(state@),
                None => self@.loaded() is None,
            },
    {
        if self.save_state {
            let state: Vec<u8> = self.state.clone();
            assert(state@ =~= self.state@);
            Some(state)
        } else {
            None
        }
    }

    /// Saves the current app state.
    pub fn save(&mut self, state: Vec<u8>)
        ensures
            final(self)@ == old(self)@.after_save(state@),
    {
        self.state = state;
        self.save_state = true;
    }

    /// What wakes the event loop.
    pub fn create_waker(&self, process: &Process<P>) -> (r: P::Waker)
        ensures
            cloned(process.waker, r),
    {
        process.waker.clone()
    }

    /// The system configuration.
    pub fn config(&self) -> (r: P::Configuration)
        ensures
            cloned(self@.configuration, r),
    {
        self.configuration.clone()
    }

    /// The frame rates to ask for, and the component to ask. Without a component
    /// there is nothing to ask.
    pub fn set_frame_rate(&self, min: i32, max: i32, expected: i32) -> (r: Option<
        (&P::Component, FrameRate),
    >)
        ensures
            match self@.xcomponent {
                Some(component) => {
                    &&& r matches Some((asked, rate))
                    &&& *asked == component
                    &&& rate == FrameRate { min, max, expected }
                },
                None => r is None,
            },
    {
        match &self.xcomponent {
            Some(component) => Some((component, FrameRate { min, max, expected })),
            None => None,
        }
    }

    /// The rectangle of the app's surface.
    pub fn content_rect(&self) -> (r: Rect)
        ensures
            r == self@.rect,
    {
        self.rect
    }

    /// The rectangle of the app's window.
    pub fn window_rect(&self) -> (r: Rect)
        ensures
            r == self@.window_rect,
    {
        self.window_rect
    }

    /// The avoid area of a type, where it is known.
    pub fn avoid_area(&self, area_type: AvoidAreaType) -> (r: Option<AvoidArea>)
        ensures
            r == self@.known_area(area_type),
    {
        let code: i32 = area_type.code();
        match self.avoid_areas.get(&code) {
            Some(area) => Some(*area),
            None => None,
        }
    }

    /// All known avoid areas, by the number of their type.
    pub fn avoid_areas(&self) -> (r: HashMap<i32, AvoidArea>)
        ensures
            r@ == self@.avoid_areas,
    {
        self.avoid_areas.clone()
    }

    /// Whether no avoid area is known.
    pub fn knows_no_area(&self) -> (r: bool)
        ensures
            r == self@.avoid_areas.is_empty(),
    {
        self.avoid_areas.is_empty()
    }

    /// Takes note of an avoid area, in place of what was known of its type.
    pub fn set_avoid_area(&mut self, area_type: AvoidAreaType, area: AvoidArea)
        ensures
            final(self)@ == old(self)@.with_area(area_type, area),
    {
        let _ = self.avoid_areas.insert(area_type.code(), area);
    }

    /// The native window of the app's surface.
    pub fn native_window(&self) -> (r: Option<P::Window>)
        ensures
            r == self@.raw_window,
    {
        self.raw_window
    }

    /// What the ability told the app when it started.
    pub fn init_context(&self) -> (r: AbilityInitContext)
        ensures
            r == self@.init_context,
    {
        self.init_context.clone()
    }

    /// Takes note of what the ability told the app.
    pub fn set_init_context(&mut self, context: AbilityInitContext)
        ensures
            final(self)@ == (AppState { init_context: context, ..old(self)@ }),
    {
        self.init_context = context;
    }

    /// The resource manager of the process.
    pub fn resource_manager(&self, process: &Process<P>) -> (r: Option<P::ResourceManager>)
        ensures
            match process.resource_manager {
                Some(manager) => r is Some && cloned(manager, r->Some_0),
                None => r is None,
            },
    {
        match &process.resource_manager {
            Some(manager) => Some(manager.clone()),
            None => None,
        }
    }

    /// Sets or takes away the resource manager of the process.
    pub fn set_resource_manager(
        &mut self,
        process: &mut Process<P>,
        resource_manager: Option<P::ResourceManager>,
    )
        ensures
            *final(self) == *old(self),
            *final(process) == (Process { resource_manager, ..*old(process) }),
    {
        process.resource_manager = resource_manager;
    }

    /// Takes note of the component that is mounted for the app.
    pub fn set_xcomponent(&mut self, component: P::Component)
        ensures
            final(self)@ == (AppState { xcomponent: Some(component), ..old(self)@ }),
    {
        self.xcomponent = Some(component);
    }

    /// Takes note of where the app's surface is.
    pub fn set_content_rect(&mut self, rect: Rect)
        ensures
            final(self)@ == (AppState { rect, ..old(self)@ }),
    {
        self.rect = rect;
    }

    /// Takes note of the native window of the app's surface.
    pub fn set_native_window(&mut self, window: Option<P::Window>)
        ensures
            final(self)@ == (AppState { raw_window: window, ..old(self)@ }),
    {
        self.raw_window = window;
    }

    /// Starts the call that ends the app with `code`.
    pub fn exit(&self, code: i32) -> (r: HelperCall)
        ensures
            r.is_start(HelperFunction::Exit, code),
    {
        HelperCall::start(HelperFunction::Exit, code)
    }

    /// Starts restarting the app.
    pub fn restart(&self) -> (r: Restart)
        ensures
            r.stage_of() is Starting,
    {
        Restart::start()
    }

    /// Starts the call that sets the color mode of the app.
    pub fn set_color_mode(&self, mode: ColorMode) -> (r: HelperCall)
        ensures
            r.is_start(HelperFunction::SetColorMode, mode.code_of()),
    {
        HelperCall::start(HelperFunction::SetColorMode, mode.code())
    }

    /// How an app is named in debug output.
    pub fn debug_string(&self) -> (r: String)
        ensures
            r@ == "OpenHarmonyApp { id: "@ + signed_decimal(self@.id as int) + " }"@,
    {
        let mut text: String = "OpenHarmonyApp { id: ".to_owned();
        push_signed_decimal(&mut text, self.id);
        text.append(" }");
        text
    }
}

/// Loading gives back the state that was saved last, whatever the app saved before; a new
/// app has nothing to load until it has saved.
pub proof fn load_gives_saved_state<P: Platform>(
    app: AppState<P>,
    earlier: Seq<u8>,
    state: Seq<u8>,
    id: i64,
    configuration: P::Configuration,
)
    ensures
        app.after_save(state).loaded() == Some(state),
        app.after_save(earlier).after_save(state).loaded() == Some(state),
        AppState::<P>::initial(id, configuration).loaded() is None,
{
}

/// An avoid area that was fetched for its own type is what is known of that type
/// from then on, whatever else is fetched for it.
pub proof fn fetched_area_stays<P: Platform>(
    app: AppState<P>,
    area_type: AvoidAreaType,
    area: AvoidArea,
    later: Option<(AvoidAreaType, AvoidArea)>,
)
    requires
        app.known_area(area_type) is None,
    ensures
        ({
            let fetched = app.after_fetch(area_type, Some((area_type, area)));
            &&& fetched.known_area(area_type) == Some(area)
            &&& fetched.after_fetch(area_type, later) == fetched
        }),
{
}

/// What is known of a type is what is stored under its number.
pub proof fn known_areas_are_stored_ones<P: Platform>(
    app: AppState<P>,
    area_type: AvoidAreaType,
    area: AvoidArea,
)
    ensures
        app.known_area(area_type) == Some(area) <==> app.avoid_areas.contains_pair(
            area_type.code_of(),
            area,
        ),
        app.known_area(area_type) is None <==> !app.avoid_areas.contains_key(area_type.code_of()),
{
}

/// What was fetched for an unknown type is known from then on, under the type that came
/// with it. Nothing else changes: neither another area nor any other part of the app.
pub proof fn fetch_adds_what_came<P: Platform>(
    app: AppState<P>,
    area_type: AvoidAreaType,
    fetched: Option<(AvoidAreaType, AvoidArea)>,
    other: i32,
)
    ensures
        ({
            let after = app.after_fetch(area_type, fetched);
            let counts = !app.avoid_areas.contains_key(area_type.code_of()) && fetched is Some;
            &&& AppState { avoid_areas: app.avoid_areas, ..after } == app
            &&& !counts ==> after.avoid_areas == app.avoid_areas
            &&& counts ==> after.avoid_areas.contains_pair(
                fetched->Some_0.0.code_of(),
                fetched->Some_0.1,
            )
            &&& counts && other != fetched->Some_0.0.code_of() ==> {
                &&& after.avoid_areas.contains_key(other) <==> app.avoid_areas.contains_key(other)
                &&& after.avoid_areas[other] == app.avoid_areas[other]
            }
        }),
{
}

/// Taking note of an area replaces what was known of its type, and nothing else.
pub proof fn noted_area_replaces_its_type<P: Platform>(
    app: AppState<P>,
    area_type: AvoidAreaType,
    area: AvoidArea,
    other: i32,
)
    ensures
        ({
            let after = app.with_area(area_type, area);
            &&& AppState { avoid_areas: app.avoid_areas, ..after } == app
            &&& after.avoid_areas.contains_pair(area_type.code_of(), area)
            &&& other != area_type.code_of() ==> {
                &&& after.avoid_areas.contains_key(other) <==> app.avoid_areas.contains_key(other)
                &&& after.avoid_areas[other] == app.avoid_areas[other]
            }
        }),
{
}

/// Saving changes the saved bytes and nothing else of the app.
pub proof fn save_changes_saved_state_only<P: Platform>(app: AppState<P>, state: Seq<u8>)
    ensures
        app.after_save(state).state == state,
        (AppState { state: app.state, save_state: app.save_state, ..app.after_save(state) }) == app,
{
}

/// A new app has the number that it was given and knows nothing else.
pub proof fn new_app_knows_nothing<P: Platform>(
    id: i64,
    configuration: P::Configuration,
    area_type: AvoidAreaType,
)
    ensures
        ({
            let app = AppState::<P>::initial(id, configuration);
            &&& app.id == id
            &&& app.configuration == configuration
            &&& app.raw_window is None && app.xcomponent is None
            &&& app.loaded() is None && app.state.len() == 0
            &&& app.known_area(area_type) is None
            &&& app.avoid_areas.is_empty()
            &&& app.rect == app.window_rect
            &&& app.rect.width == 0 && app.rect.height == 0 && app.rect.top == 0 && app.rect.left
                == 0
            &&& app.init_context.base_path is None && app.init_context.module_name is None
        }),
{
}

} // verus!
