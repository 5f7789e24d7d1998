//! Calls of the functions that the script side offers on its helper object.
use vstd::prelude::*;
use crate::error::AbilityError;
use crate::geometry::{AvoidArea, AvoidAreaType};
use crate::object::{avoid_area_in, parse_avoid_area_options, JsObject};

verus! {

/// The color mode of the app.
#[derive(Clone, Copy, Debug, PartialEq, Eq, Structural)]
pub enum ColorMode {
    /// Follow the system.
    NotSet,
    Dark,
    Light,
}

impl ColorMode {
    /// The platform's number for the mode.
    pub open spec fn code_of(self) -> i32 {
        match self {
            ColorMode::NotSet => (-1) as i32,
            ColorMode::Dark => 0,
            ColorMode::Light => 1,
        }
    }

    /// The platform's number for the mode.
    pub fn code(self) -> (r: i32)
        ensures
            r == self.code_of(),
    {
        match self {
            ColorMode::NotSet => -1,
            ColorMode::Dark => 0,
            ColorMode::Light => 1,
        }
    }
}

/// A function of the helper object. Each takes one number.
#[derive(Clone, Copy, Debug, PartialEq, Eq, Structural)]
pub enum HelperFunction {
    Exit,
    SetColorMode,
    GetWindowAvoidArea,
}

impl HelperFunction {
    /// The name under which the helper object has the function.
    pub open spec fn property(self) -> Seq<char> {
        match self {
            HelperFunction::Exit => "exit"@,
            HelperFunction::SetColorMode => "setColorMode"@,
            HelperFunction::GetWindowAvoidArea => "getWindowAvoidArea"@,
        }
    }

    /// Whether the function is called for its effect, and not for what it returns.
    pub open spec fn has_effect(self) -> bool {
        !(self is GetWindowAvoidArea)
    }

    /// The name under which the app offers a function that has an effect.
    pub open spec fn offered_as(self) -> Seq<char>
        recommends
            self.has_effect(),
    {
        if self is Exit {
            "exit"@
        } else {
            "set_color_mode"@
        }
    }

    fn property_name(self) -> (r: &'static str)
        ensures
            r@ == self.property(),
    {
        match self {
            HelperFunction::Exit => "exit",
            HelperFunction::SetColorMode => "setColorMode",
            HelperFunction::GetWindowAvoidArea => "getWindowAvoidArea",
        }
    }

    fn offered_name(self) -> (r: &'static str)
        requires
            self.has_effect(),
        ensures
            r@ == self.offered_as(),
    {
        match self {
            HelperFunction::Exit => "exit",
            _ => "set_color_mode",
        }
    }
}

/// How far a call has come.
#[derive(Clone, Copy, Debug, PartialEq, Eq, Structural)]
pub enum HelperStage {
    /// It is not known yet whether there is a helper and an environment.
    Starting,
    /// The helper object is being fetched.
    FetchingHelper,
    /// The function is being fetched from the helper object.
    FetchingFunction,
    /// The function is being called.
    Calling,
    /// How the call ended is known.
    Ended,
}

/// What became of the outside step that was asked for last.
pub enum HelperEvent<E> {
    /// Whether the helper has been set, and whether this is the main thread, which
    /// alone has the environment.
    Found { helper: bool, main_thread: bool },
    /// Whether the helper object could be fetched.
    HelperFetched(Result<(), E>),
    /// Whether the function could be fetched.
    FunctionFetched(Result<(), E>),
    /// Whether the function returned.
    Returned(Result<(), E>),
}

/// How a call ended.
pub enum HelperEnd<E> {
    /// No helper has been set.
    NoHelper,
    /// This is not the main thread.
    NotMainThread,
    /// An outside step failed.
    Failed(E),
    /// The function returned.
    Returned,
}

/// What is to be done next.
pub enum HelperAction<E> {
    FetchHelper,
    /// Fetch the function of this name.
    FetchFunction(&'static str),
    /// Call the function with this number.
    Call(i32),
    Finish(HelperEnd<E>),
}

/// How the call ends with this event, if it does.
pub open spec fn end_after<E>(event: HelperEvent<E>) -> Option<HelperEnd<E>> {
    match event {
        HelperEvent::Found { helper, main_thread } => if !helper {
            Some(HelperEnd::NoHelper)
        } else if !main_thread {
            Some(HelperEnd::NotMainThread)
        } else {
            None
        },
        HelperEvent::HelperFetched(Ok(_)) | HelperEvent::FunctionFetched(Ok(_)) => None,
        HelperEvent::Returned(Ok(_)) => Some(HelperEnd::Returned),
        HelperEvent::HelperFetched(Err(e))
        | HelperEvent::FunctionFetched(Err(e))
        | HelperEvent::Returned(Err(e)) => Some(HelperEnd::Failed(e)),
    }
}

/// How far the call has come with this event.
pub open spec fn stage_after<E>(event: HelperEvent<E>) -> HelperStage {
    if end_after(event) is Some {
        HelperStage::Ended
    } else {
        match event {
            HelperEvent::Found { .. } => HelperStage::FetchingHelper,
            HelperEvent::HelperFetched(_) => HelperStage::FetchingFunction,
            _ => HelperStage::Calling,
        }
    }
}

/// How a call ends when each outside step goes as given. A step that is not reached
/// does not count.
pub open spec fn end_of_call<E>(
    helper: bool,
    main_thread: bool,
    fetched: Result<(), E>,
    function: Result<(), E>,
    returned: Result<(), E>,
) -> HelperEnd<E> {
    match end_after(HelperEvent::<E>::Found { helper, main_thread }) {
        Some(end) => end,
        None => match end_after(HelperEvent::HelperFetched(fetched)) {
            Some(end) => end,
            None => match end_after(HelperEvent::FunctionFetched(function)) {
                Some(end) => end,
                None => end_after(HelperEvent::Returned(returned))->Some_0,
            },
        },
    }
}

/// Whether `r` is the result of a call of `function` that is made for its effect and
/// ended as given. Without a helper there is nothing to do, and that is no error;
/// outside the main thread it is one.
pub open spec fn is_result<E>(
    r: Result<(), AbilityError<E>>,
    function: HelperFunction,
    end: HelperEnd<E>,
) -> bool {
    match end {
        HelperEnd::NoHelper | HelperEnd::Returned => r == Ok::<(), AbilityError<E>>(()),
        HelperEnd::NotMainThread => r matches Err(AbilityError::OnlyRunWithMainThread(name))
            && name@ == function.offered_as(),
        HelperEnd::Failed(e) => r == Err::<(), AbilityError<E>>(AbilityError::Host(e)),
    }
}

/// A call in progress.
pub struct HelperCall {
    function: HelperFunction,
    argument: i32,
    stage: HelperStage,
}

impl HelperCall {
    /// The function that is called.
    pub closed spec fn function_of(self) -> HelperFunction {
        self.function
    }

    /// What it is called with.
    pub closed spec fn argument_of(self) -> i32 {
        self.argument
    }

    /// How far the call has come.
    pub closed spec fn stage_of(self) -> HelperStage {
        self.stage
    }

    /// Whether this is a call of `function` with `argument` that has not begun.
    pub open spec fn is_start(self, function: HelperFunction, argument: i32) -> bool {
        self.function_of() == function && self.argument_of() == argument && self.stage_of()
            is Starting
    }

    /// Whether the event answers what was asked for last.
    pub open spec fn expects<E>(self, event: HelperEvent<E>) -> bool {
        match event {
            HelperEvent::Found { .. } => self.stage_of() is Starting,
            HelperEvent::HelperFetched(_) => self.stage_of() is FetchingHelper,
            HelperEvent::FunctionFetched(_) => self.stage_of() is FetchingFunction,
            HelperEvent::Returned(_) => self.stage_of() is Calling,
        }
    }

    /// Starts a call.
    pub fn start(function: HelperFunction, argument: i32) -> (r: HelperCall)
        ensures
            r.is_start(function, argument),
    {
        HelperCall { function, argument, stage: HelperStage::Starting }
    }

    /// Takes the next step.
    pub fn advance<E>(&mut self, event: HelperEvent<E>) -> (r: HelperAction<E>)
        requires
            old(self).expects(event),
        ensures
            final(self).function_of() == old(self).function_of(),
            final(self).argument_of() == old(self).argument_of(),
            final(self).stage_of() == stage_after(event),
            match end_after(event) {
                Some(end) => r == HelperAction::Finish(end),
                None => match stage_after(event) {
                    HelperStage::FetchingHelper => r is FetchHelper,
                    HelperStage::FetchingFunction => {
                        &&& r matches HelperAction::FetchFunction(name)
                        &&& name@ == old(self).function_of().property()
                    },
                    _ => r == HelperAction::<E>::Call(old(self).argument_of()),
                },
            },
            r is FetchHelper <==> event == (HelperEvent::<E>::Found {
                helper: true,
                main_thread: true,
            }),
            r is FetchFunction <==> (event matches HelperEvent::HelperFetched(Ok(_))),
            r is Call <==> (event matches HelperEvent::FunctionFetched(Ok(_))),
            r is Finish <==> final(self).stage_of() is Ended,
    {
        match event {
            HelperEvent::Found { helper, main_thread } => {
                if !helper {
                    self.stage = HelperStage::Ended;
                    HelperAction::Finish(HelperEnd::NoHelper)
                } else if !main_thread {
                    self.stage = HelperStage::Ended;
                    HelperAction::Finish(HelperEnd::NotMainThread)
                } else {
                    self.stage = HelperStage::FetchingHelper;
                    HelperAction::FetchHelper
                }
            },
            HelperEvent::HelperFetched(Ok(_)) => {
                self.stage = HelperStage::FetchingFunction;
                HelperAction::FetchFunction(self.function.property_name())
            },
            HelperEvent::FunctionFetched(Ok(_)) => {
                self.stage = HelperStage::Calling;
                HelperAction::Call(self.argument)
            },
            HelperEvent::Returned(Ok(_)) => {
                self.stage = HelperStage::Ended;
                HelperAction::Finish(HelperEnd::Returned)
            },
            HelperEvent::HelperFetched(Err(e))
            | HelperEvent::FunctionFetched(Err(e))
            | HelperEvent::Returned(Err(e)) => {
                self.stage = HelperStage::Ended;
                HelperAction::Finish(HelperEnd::Failed(e))
            },
        }
    }

    /// The result of a call that is made for its effect.
    pub fn result<E>(&self, end: HelperEnd<E>) -> (r: Result<(), AbilityError<E>>)
        requires
            self.function_of().has_effect(),
        ensures
            is_result(r, self.function_of(), end),
    {
        match end {
            HelperEnd::NoHelper | HelperEnd::Returned => Ok(()),
            HelperEnd::NotMainThread => Err(
                AbilityError::OnlyRunWithMainThread(self.function.offered_name().to_owned()),
            ),
            HelperEnd::Failed(e) => Err(AbilityError::Host(e)),
        }
    }
}

/// The avoid area that a call of the helper brought. Whatever went wrong on the way,
/// or in what came back, there is none.
pub fn fetched_avoid_area<E>(end: &HelperEnd<E>, options: &Option<JsObject>) -> (r: Option<
    (AvoidAreaType, AvoidArea),
>)
    ensures
        r == match (*end, *options) {
            (HelperEnd::Returned, Some(object)) => avoid_area_in(object),
            _ => None,
        },
        r matches Some((area_type, _)) ==> area_type.is_canonical(),
{
    match (end, options) {
        (HelperEnd::Returned, Some(object)) => parse_avoid_area_options(object),
        _ => None,
    }
}

/// A call that is made for its effect succeeds exactly where there is no helper, or
/// where this is the main thread and every outside step succeeds. Only the main
/// thread's absence is an error of its own; a failed step is passed on.
pub proof fn helper_call_succeeds_iff<E>(
    function: HelperFunction,
    helper: bool,
    main_thread: bool,
    fetched: Result<(), E>,
    found: Result<(), E>,
    returned: Result<(), E>,
    r: Result<(), AbilityError<E>>,
)
    requires
        is_result(r, function, end_of_call(helper, main_thread, fetched, found, returned)),
    ensures
        r is Ok <==> !helper || main_thread && fetched is Ok && found is Ok && returned is Ok,
        r matches Err(AbilityError::OnlyRunWithMainThread(_)) <==> helper && !main_thread,
        !(r matches Err(AbilityError::Reason(_))),
{
}

/// The first outside step that fails is the one whose error comes back.
pub proof fn first_failed_step_is_passed_on<E>(
    function: HelperFunction,
    fetched: Result<(), E>,
    found: Result<(), E>,
    returned: Result<(), E>,
    r: Result<(), AbilityError<E>>,
    e: E,
)
    requires
        is_result(r, function, end_of_call(true, true, fetched, found, returned)),
    ensures
        fetched == Err::<(), E>(e) ==> r == Err::<(), AbilityError<E>>(AbilityError::Host(e)),
        fetched is Ok && found == Err::<(), E>(e) ==> r == Err::<(), AbilityError<E>>(
            AbilityError::Host(e),
        ),
        fetched is Ok && found is Ok && returned == Err::<(), E>(e) ==> r == Err::<
            (),
            AbilityError<E>,
        >(AbilityError::Host(e)),
{
}

/// Without a helper nothing else matters; outside the main thread the error names the
/// function that was called; a call that returns ends as such.
pub proof fn helper_and_thread_come_first<E>(
    function: HelperFunction,
    helper: bool,
    main_thread: bool,
    fetched: Result<(), E>,
    found: Result<(), E>,
    returned: Result<(), E>,
    r: Result<(), AbilityError<E>>,
)
    requires
        function.has_effect(),
        is_result(r, function, end_of_call(helper, main_thread, fetched, found, returned)),
    ensures
        ({
            let end = end_of_call(helper, main_thread, fetched, found, returned);
            &&& end is NoHelper <==> !helper
            &&& end is NotMainThread <==> helper && !main_thread
            &&& end is Returned <==> helper && main_thread && fetched is Ok && found is Ok
                && returned is Ok
        }),
        helper && !main_thread && function is Exit ==> (r matches Err(
            AbilityError::OnlyRunWithMainThread(name),
        ) && name@ == "exit"@),
        helper && !main_thread && function is SetColorMode ==> (r matches Err(
            AbilityError::OnlyRunWithMainThread(name),
        ) && name@ == "set_color_mode"@),
{
}

/// A call goes through its stages one after the other: the helper object is fetched first,
/// then the function, then it is called. Whatever fails ends it at once.
pub proof fn helper_call_goes_stage_by_stage<E>(event: HelperEvent<E>)
    ensures
        stage_after(event) is FetchingHelper <==> event == (HelperEvent::<E>::Found {
            helper: true,
            main_thread: true,
        }),
        stage_after(event) is FetchingFunction <==> (event matches HelperEvent::HelperFetched(
            Ok(_),
        )),
        stage_after(event) is Calling <==> (event matches HelperEvent::FunctionFetched(Ok(_))),
        event matches HelperEvent::HelperFetched(Err(e)) ==> end_after(event) == Some(
            HelperEnd::Failed(e),
        ),
        event matches HelperEvent::FunctionFetched(Err(e)) ==> end_after(event) == Some(
            HelperEnd::Failed(e),
        ),
        event matches HelperEvent::Returned(Err(e)) ==> end_after(event) == Some(
            HelperEnd::Failed(e),
        ),
        event matches HelperEvent::Returned(Ok(_)) ==> end_after(event) == Some(
            HelperEnd::<E>::Returned,
        ),
        event matches HelperEvent::Found { helper, .. } ==> (end_after(event) == Some(
            HelperEnd::<E>::NoHelper,
        ) <==> !helper),
        event matches HelperEvent::Found { helper, main_thread } ==> (end_after(event) == Some(
            HelperEnd::<E>::NotMainThread,
        ) <==> helper && !main_thread),
        stage_after(event) is Ended <==> end_after(event) is Some,
        !(stage_after(event) is Starting),
{
}

/// Each color mode and each function has the number or the name that the platform gives
/// it.
pub proof fn platform_names_and_numbers()
    ensures
        ColorMode::NotSet.code_of() == -1,
        ColorMode::Dark.code_of() == 0,
        ColorMode::Light.code_of() == 1,
        HelperFunction::Exit.property() == "exit"@,
        HelperFunction::SetColorMode.property() == "setColorMode"@,
        HelperFunction::GetWindowAvoidArea.property() == "getWindowAvoidArea"@,
        HelperFunction::Exit.has_effect() && HelperFunction::SetColorMode.has_effect(),
        !HelperFunction::GetWindowAvoidArea.has_effect(),
{
}

} // verus!
