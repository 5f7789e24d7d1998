//! Setting up the app's surface: which steps are taken, in which order, and what
//! happens when one of them fails.
use vstd::prelude::*;

verus! {

/// The optional parts that the app was built with.
#[derive(Clone, Copy, Debug, PartialEq, Eq, Structural)]
pub struct RenderFeatures {
    pub statusbar: bool,
    pub clipboard: bool,
    pub updater: bool,
}

/// One step of setting up the surface.
#[derive(Clone, Copy, Debug, PartialEq, Eq, Structural)]
pub enum RenderStep {
    SetHelper,
    SetMainThreadEnv,
    InitTray,
    InitClipboard,
    CreatePermissionRequest,
    CreateRestart,
    CreateUpdaterCheck,
    CreateUpdaterShowDialog,
    CreateUpdaterDownloadAndInstall,
    CreateAutostartEnable,
    CreateAutostartDisable,
    CreateAutostartIsEnabled,
    CreateRootNode,
    CreateXComponent,
    StoreXComponent,
    CreateImeCallbacks,
    OnSurfaceCreated,
    OnSurfaceDestroyed,
    OnSurfaceChanged,
    OnTouchEvent,
    OnKeyEvent,
    SetMouseEventCallback,
    SetAxisEventCallback,
    RegisterCallback,
    RegisterMouseCallbacks,
    Mount,
}

/// What the failure of a step means for the steps after it.
#[derive(Clone, Copy, Debug, PartialEq, Eq, Structural)]
pub enum OnFailure {
    /// The setup goes on and nobody is told.
    Ignore,
    /// The setup goes on and the failure is logged.
    Log,
    /// The setup ends with the failure.
    Abort,
}

impl RenderStep {
    /// The meaning of this step's failure.
    pub open spec fn failure_policy(self) -> OnFailure {
        match self {
            RenderStep::CreateXComponent
            | RenderStep::CreateImeCallbacks
            | RenderStep::RegisterCallback
            | RenderStep::Mount => OnFailure::Abort,
            RenderStep::InitTray
            | RenderStep::InitClipboard
            | RenderStep::CreateAutostartEnable
            | RenderStep::CreateAutostartDisable
            | RenderStep::CreateAutostartIsEnabled
            | RenderStep::RegisterMouseCallbacks => OnFailure::Log,
            _ => OnFailure::Ignore,
        }
    }

    /// The meaning of this step's failure.
    pub fn on_failure(self) -> (r: OnFailure)
        ensures
            r == self.failure_policy(),
    {
        match self {
            RenderStep::CreateXComponent
            | RenderStep::CreateImeCallbacks
            | RenderStep::RegisterCallback
            | RenderStep::Mount => OnFailure::Abort,
            RenderStep::InitTray
            | RenderStep::InitClipboard
            | RenderStep::CreateAutostartEnable
            | RenderStep::CreateAutostartDisable
            | RenderStep::CreateAutostartIsEnabled
            | RenderStep::RegisterMouseCallbacks => OnFailure::Log,
            _ => OnFailure::Ignore,
        }
    }

    /// Whether the step needs the main thread's environment to be known.
    pub open spec fn needs_main_thread_env(self) -> bool {
        match self {
            RenderStep::InitTray
            | RenderStep::InitClipboard
            | RenderStep::CreatePermissionRequest
            | RenderStep::CreateRestart
            | RenderStep::CreateUpdaterCheck
            | RenderStep::CreateUpdaterShowDialog
            | RenderStep::CreateUpdaterDownloadAndInstall
            | RenderStep::CreateAutostartEnable
            | RenderStep::CreateAutostartDisable
            | RenderStep::CreateAutostartIsEnabled
            | RenderStep::CreateImeCallbacks => true,
            _ => false,
        }
    }

    /// Whether the step hands a closure to the surface component.
    pub open spec fn hands_over_closure(self) -> bool {
        match self {
            RenderStep::OnSurfaceCreated
            | RenderStep::OnSurfaceDestroyed
            | RenderStep::OnSurfaceChanged
            | RenderStep::OnTouchEvent
            | RenderStep::OnKeyEvent
            | RenderStep::SetMouseEventCallback
            | RenderStep::SetAxisEventCallback => true,
            _ => false,
        }
    }
}

/// `steps` where the feature is there, else nothing.
pub open spec fn only_if(feature: bool, steps: Seq<RenderStep>) -> Seq<RenderStep> {
    if feature {
        steps
    } else {
        Seq::empty()
    }
}

/// The steps of the setup, in order.
pub open spec fn render_plan(features: RenderFeatures) -> Seq<RenderStep> {
    seq![RenderStep::SetHelper, RenderStep::SetMainThreadEnv]
        + only_if(features.statusbar, seq![RenderStep::InitTray])
        + only_if(features.clipboard, seq![RenderStep::InitClipboard])
        + seq![RenderStep::CreatePermissionRequest, RenderStep::CreateRestart]
        + only_if(
        features.updater,
        seq![
            RenderStep::CreateUpdaterCheck,
            RenderStep::CreateUpdaterShowDialog,
            RenderStep::CreateUpdaterDownloadAndInstall,
        ],
    ) + seq![
        RenderStep::CreateAutostartEnable,
        RenderStep::CreateAutostartDisable,
        RenderStep::CreateAutostartIsEnabled,
        RenderStep::CreateRootNode,
        RenderStep::CreateXComponent,
        RenderStep::StoreXComponent,
        RenderStep::CreateImeCallbacks,
        RenderStep::OnSurfaceCreated,
        RenderStep::OnSurfaceDestroyed,
        RenderStep::OnSurfaceChanged,
        RenderStep::OnTouchEvent,
        RenderStep::OnKeyEvent,
        RenderStep::SetMouseEventCallback,
        RenderStep::SetAxisEventCallback,
        RenderStep::RegisterCallback,
        RenderStep::RegisterMouseCallbacks,
        RenderStep::Mount,
    ]
}

fn render_steps(features: RenderFeatures) -> (r: Vec<RenderStep>)
    ensures
        r@ == render_plan(features),
{
    let mut steps: Vec<RenderStep> = Vec::new();
    steps.push(RenderStep::SetHelper);
    steps.push(RenderStep::SetMainThreadEnv);
    if features.statusbar {
        steps.push(RenderStep::InitTray);
    }
    if features.clipboard {
        steps.push(RenderStep::InitClipboard);
    }
    steps.push(RenderStep::CreatePermissionRequest);
    steps.push(RenderStep::CreateRestart);
    if features.updater {
        steps.push(RenderStep::CreateUpdaterCheck);
        steps.push(RenderStep::CreateUpdaterShowDialog);
        steps.push(RenderStep::CreateUpdaterDownloadAndInstall);
    }
    steps.push(RenderStep::CreateAutostartEnable);
    steps.push(RenderStep::CreateAutostartDisable);
    steps.push(RenderStep::CreateAutostartIsEnabled);
    steps.push(RenderStep::CreateRootNode);
    steps.push(RenderStep::CreateXComponent);
    steps.push(RenderStep::StoreXComponent);
    steps.push(RenderStep::CreateImeCallbacks);
    steps.push(RenderStep::OnSurfaceCreated);
    steps.push(RenderStep::OnSurfaceDestroyed);
    steps.push(RenderStep::OnSurfaceChanged);
    steps.push(RenderStep::OnTouchEvent);
    steps.push(RenderStep::OnKeyEvent);
    steps.push(RenderStep::SetMouseEventCallback);
    steps.push(RenderStep::SetAxisEventCallback);
    steps.push(RenderStep::RegisterCallback);
    steps.push(RenderStep::RegisterMouseCallbacks);
    steps.push(RenderStep::Mount);
    assert(steps@ =~= render_plan(features));
    steps
}

/// How far a setup has come.
pub ghost struct RenderProgress {
    pub steps: Seq<RenderStep>,
    /// How many steps have been taken.
    pub taken: int,
    /// Whether the last step taken ended the setup.
    pub aborted: bool,
}

impl RenderProgress {
    /// Nothing of the plan has been done.
    pub open spec fn start(steps: Seq<RenderStep>) -> RenderProgress {
        RenderProgress { steps, taken: 0, aborted: false }
    }

    /// The step to take now.
    pub open spec fn current(self) -> Option<RenderStep> {
        if self.aborted || self.taken >= self.steps.len() {
            None
        } else {
            Some(self.steps[self.taken])
        }
    }

    /// Every step was taken and none of them ended the setup.
    pub open spec fn succeeded(self) -> bool {
        !self.aborted && self.taken == self.steps.len()
    }

    /// The progress after the current step went well or failed.
    pub open spec fn after(self, failed: bool) -> RenderProgress
        recommends
            self.current() is Some,
    {
        RenderProgress {
            steps: self.steps,
            taken: self.taken + 1,
            aborted: failed && self.steps[self.taken].failure_policy() is Abort,
        }
    }

    /// The progress when each step's outcome is read off `failed`, until no step is
    /// left to take.
    pub open spec fn run(self, failed: Seq<bool>) -> RenderProgress
        decreases self.steps.len() - self.taken,
    {
        if self.current() is None {
            self
        } else {
            self.after(failed[self.taken]).run(failed)
        }
    }
}

/// What is to be done about the outcome of a step.
#[derive(Debug)]
pub enum RenderVerdict<E> {
    /// Go on with the next step, if there is one.
    Continue,
    /// Log the failure and go on.
    LogAndContinue(E),
    /// Give up: the setup ends with this failure.
    Abort(E),
}

/// A setup in progress.
pub struct Rendering {
    steps: Vec<RenderStep>,
    taken: usize,
    aborted: bool,
}

impl View for Rendering {
    type V = RenderProgress;

    closed spec fn view(&self) -> RenderProgress {
        RenderProgress { steps: self.steps@, taken: self.taken as int, aborted: self.aborted }
    }
}

/// Starts setting up the surface of an app.
pub fn render(features: RenderFeatures) -> (r: Rendering)
    ensures
        r@ == RenderProgress::start(render_plan(features)),
{
    Rendering { steps: render_steps(features), taken: 0, aborted: false }
}

impl Rendering {
    /// The step to take now; `None` once the setup has ended.
    pub fn current(&self) -> (r: Option<RenderStep>)
        ensures
            r == self@.current(),
    {
        if self.aborted || self.taken >= self.steps.len() {
            None
        } else {
            Some(self.steps[self.taken])
        }
    }

    /// Whether every step was taken and none of them ended the setup.
    pub fn succeeded(&self) -> (r: bool)
        ensures
            r == self@.succeeded(),
    {
        !self.aborted && self.taken == self.steps.len()
    }

    /// Takes note of how the current step went.
    pub fn report<E>(&mut self, outcome: Result<(), E>) -> (r: RenderVerdict<E>)
        requires
            old(self)@.current() is Some,
        ensures
            final(self)@ == old(self)@.after(outcome is Err),
            r == match outcome {
                Ok(_) => RenderVerdict::Continue,
                Err(e) => match old(self)@.current()->Some_0.failure_policy() {
                    OnFailure::Ignore => RenderVerdict::Continue,
                    OnFailure::Log => RenderVerdict::LogAndContinue(e),
                    OnFailure::Abort => RenderVerdict::Abort(e),
                },
            },
    {
        assert(self.taken < self.steps.len());
        let step: RenderStep = self.steps[self.taken];
        self.taken = self.taken + 1;
        match outcome {
            Ok(_) => RenderVerdict::Continue,
            Err(e) => match step.on_failure() {
                OnFailure::Ignore => RenderVerdict::Continue,
                OnFailure::Log => RenderVerdict::LogAndContinue(e),
                OnFailure::Abort => {
                    self.aborted = true;
                    RenderVerdict::Abort(e)
                },
            },
        }
    }
}

/// Whether step `i` both failed and matters enough to end the setup.
pub open spec fn ends_setup(steps: Seq<RenderStep>, failed: Seq<bool>, i: int) -> bool {
    failed[i] && steps[i].failure_policy() is Abort
}

/// A setup ends early exactly at the first step that fails and is not best-effort;
/// where there is none, every step is taken and the setup succeeds.
pub proof fn render_ends_at_first_fatal_failure(progress: RenderProgress, failed: Seq<bool>)
    requires
        0 <= progress.taken <= progress.steps.len(),
        !progress.aborted,
    ensures
        ({
            let end = progress.run(failed);
            &&& end.steps == progress.steps
            &&& end.succeeded() || end.aborted
            &&& end.succeeded() <==> forall|i: int|
                progress.taken <= i < progress.steps.len() ==> !#[trigger] ends_setup(
                    progress.steps,
                    failed,
                    i,
                )
            &&& end.aborted ==> {
                &&& progress.taken < end.taken <= progress.steps.len()
                &&& ends_setup(progress.steps, failed, end.taken - 1)
                &&& forall|i: int|
                    progress.taken <= i < end.taken - 1 ==> !#[trigger] ends_setup(
                        progress.steps,
                        failed,
                        i,
                    )
            }
        }),
    decreases progress.steps.len() - progress.taken,
{
    if progress.taken < progress.steps.len() {
        let next = progress.after(failed[progress.taken]);
        if ends_setup(progress.steps, failed, progress.taken) {
            assert(next.run(failed) == next);
        } else {
            render_ends_at_first_fatal_failure(next, failed);
            assert(progress.run(failed) == next.run(failed));
        }
    }
}

/// In every plan the main thread's environment is set before any step that needs
/// it, every closure is handed over before the callbacks are registered, and
/// mounting the component comes last.
pub proof fn render_plan_is_ordered(features: RenderFeatures)
    ensures
        ({
            let plan = render_plan(features);
            &&& plan[1] is SetMainThreadEnv
            &&& forall|i: int|
                0 <= i < plan.len() && (#[trigger] plan[i]).needs_main_thread_env() ==> 1 < i
            &&& forall|i: int, j: int|
                0 <= i < plan.len() && 0 <= j < plan.len() && (#[trigger] plan[i]).hands_over_closure()
                    && #[trigger] plan[j] is RegisterCallback ==> i < j
            &&& plan.last() is Mount
        }),
{
}

impl RenderStep {
    /// Where the step stands among all steps, counted from the first one.
    pub open spec fn rank(self) -> int {
        match self {
            RenderStep::SetHelper => 0,
            RenderStep::SetMainThreadEnv => 1,
            RenderStep::InitTray => 2,
            RenderStep::InitClipboard => 3,
            RenderStep::CreatePermissionRequest => 4,
            RenderStep::CreateRestart => 5,
            RenderStep::CreateUpdaterCheck => 6,
            RenderStep::CreateUpdaterShowDialog => 7,
            RenderStep::CreateUpdaterDownloadAndInstall => 8,
            RenderStep::CreateAutostartEnable => 9,
            RenderStep::CreateAutostartDisable => 10,
            RenderStep::CreateAutostartIsEnabled => 11,
            RenderStep::CreateRootNode => 12,
            RenderStep::CreateXComponent => 13,
            RenderStep::StoreXComponent => 14,
            RenderStep::CreateImeCallbacks => 15,
            RenderStep::OnSurfaceCreated => 16,
            RenderStep::OnSurfaceDestroyed => 17,
            RenderStep::OnSurfaceChanged => 18,
            RenderStep::OnTouchEvent => 19,
            RenderStep::OnKeyEvent => 20,
            RenderStep::SetMouseEventCallback => 21,
            RenderStep::SetAxisEventCallback => 22,
            RenderStep::RegisterCallback => 23,
            RenderStep::RegisterMouseCallbacks => 24,
            RenderStep::Mount => 25,
        }
    }
}

/// Where a step stands in the plan for these features, if it is in it.
spec fn place_in_plan(features: RenderFeatures, step: RenderStep) -> int {
    let tray: int = if features.statusbar { 0 } else { 1 };
    let clipboard: int = if features.clipboard { 0 } else { 1 };
    let updater: int = if features.updater { 0 } else { 3 };
    let rank = step.rank();
    if rank <= 2 {
        rank
    } else if rank <= 3 {
        rank - tray
    } else if rank <= 8 {
        rank - tray - clipboard
    } else {
        rank - tray - clipboard - updater
    }
}

/// A plan holds the tray's step exactly where there is a status bar, the clipboard's where
/// there is a clipboard, the updater's three where there is an updater, and every other
/// step always.
pub proof fn render_plan_follows_features(features: RenderFeatures, step: RenderStep)
    ensures
        render_plan(features).contains(step) <==> match step {
            RenderStep::InitTray => features.statusbar,
            RenderStep::InitClipboard => features.clipboard,
            RenderStep::CreateUpdaterCheck => features.updater,
            RenderStep::CreateUpdaterShowDialog => features.updater,
            RenderStep::CreateUpdaterDownloadAndInstall => features.updater,
            _ => true,
        },
{
    let plan = render_plan(features);
    let held = match step {
        RenderStep::InitTray => features.statusbar,
        RenderStep::InitClipboard => features.clipboard,
        RenderStep::CreateUpdaterCheck => features.updater,
        RenderStep::CreateUpdaterShowDialog => features.updater,
        RenderStep::CreateUpdaterDownloadAndInstall => features.updater,
        _ => true,
    };
    if held {
        assert(plan[place_in_plan(features, step)] == step);
    }
}

/// The steps of every plan come in one order, and each of them once: leaving out a feature
/// takes its steps away and moves no other.
pub proof fn render_plan_keeps_order(features: RenderFeatures, i: int, j: int)
    requires
        0 <= i < j < render_plan(features).len(),
    ensures
        render_plan(features)[i].rank() < render_plan(features)[j].rank(),
        render_plan(features)[i] != render_plan(features)[j],
{
    let plan = render_plan(features);
    assert(place_in_plan(features, plan[i]) == i);
    assert(place_in_plan(features, plan[j]) == j);
}

/// The setup cannot do without the component, the input method's callbacks, the
/// registration and the mounting. It does without everything else, and tells of it where
/// a tray, a clipboard, autostart or the mouse is missing.
pub proof fn few_failures_are_fatal(step: RenderStep)
    ensures
        step.failure_policy() is Abort <==> step is CreateXComponent || step is CreateImeCallbacks
            || step is RegisterCallback || step is Mount,
        step.failure_policy() is Log <==> step is InitTray || step is InitClipboard || step
            is CreateAutostartEnable || step is CreateAutostartDisable || step
            is CreateAutostartIsEnabled || step is RegisterMouseCallbacks,
{
}

/// Reporting a step moves the setup on by exactly that step, and ends it exactly where the
/// step failed and is fatal; the steps themselves never change.
pub proof fn report_moves_on_by_one(progress: RenderProgress, failed: bool)
    requires
        progress.current() is Some,
        0 <= progress.taken,
    ensures
        progress.current() == Some(progress.steps[progress.taken]),
        progress.after(failed).steps == progress.steps,
        progress.after(failed).taken == progress.taken + 1,
        progress.after(failed).aborted <==> failed
            && progress.steps[progress.taken].failure_policy() is Abort,
        progress.after(failed).aborted ==> progress.after(failed).current() is None,
        !progress.after(failed).aborted && progress.taken + 1 < progress.steps.len()
            ==> progress.after(failed).current() == Some(progress.steps[progress.taken + 1]),
        progress.after(failed).succeeded() <==> !progress.after(failed).aborted && progress.taken + 1
            == progress.steps.len(),
{
}

/// A setup starts at its first step, with nothing taken and nothing failed.
pub proof fn setup_starts_at_first_step(steps: Seq<RenderStep>)
    ensures
        RenderProgress::start(steps).steps == steps,
        RenderProgress::start(steps).taken == 0,
        !RenderProgress::start(steps).aborted,
        steps.len() > 0 ==> RenderProgress::start(steps).current() == Some(steps[0]),
{
}

} // verus!
