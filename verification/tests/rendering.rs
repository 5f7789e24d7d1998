use openharmony_ability::xcomponent::{
    render, OnFailure, RenderFeatures, RenderStep, RenderVerdict,
};

const PLAIN: RenderFeatures = RenderFeatures { statusbar: false, clipboard: false, updater: false };
const FULL: RenderFeatures = RenderFeatures { statusbar: true, clipboard: true, updater: true };

fn run(
    features: RenderFeatures,
    fails: impl Fn(RenderStep) -> bool,
) -> (Vec<RenderStep>, Vec<RenderStep>, Option<RenderStep>, bool) {
    let mut taken = Vec::new();
    let mut logged = Vec::new();
    let mut aborted = None;
    let mut rendering = render(features);
    while let Some(step) = rendering.current() {
        taken.push(step);
        match rendering.report(if fails(step) { Err(step) } else { Ok(()) }) {
            RenderVerdict::Continue => {}
            RenderVerdict::LogAndContinue(e) => logged.push(e),
            RenderVerdict::Abort(e) => aborted = Some(e),
        }
    }
    (taken, logged, aborted, rendering.succeeded())
}

#[test]
fn plain_setup_takes_the_common_steps() {
    let (taken, logged, aborted, succeeded) = run(PLAIN, |_| false);
    assert_eq!(
        taken,
        vec![
            RenderStep::SetHelper,
            RenderStep::SetMainThreadEnv,
            RenderStep::CreatePermissionRequest,
            RenderStep::CreateRestart,
            RenderStep::CreateAutostartEnable,
            RenderStep::CreateAutostartDisable,
            RenderStep::CreateAutostartIsEnabled,
            RenderStep::CreateRootNode,
            RenderStep::CreateXComponent,
            RenderStep::StoreXComponent,
            RenderStep::CreateImeCallbacks,
            RenderStep::OnSurfaceCreated,
            RenderStep::OnSurfaceDestroyed,
            RenderStep::OnSurfaceChanged,
            RenderStep::OnTouchEvent,
            RenderStep::OnKeyEvent,
            RenderStep::SetMouseEventCallback,
            RenderStep::SetAxisEventCallback,
            RenderStep::RegisterCallback,
            RenderStep::RegisterMouseCallbacks,
            RenderStep::Mount,
        ]
    );
    assert!(logged.is_empty());
    assert_eq!(aborted, None);
    assert!(succeeded);
}

#[test]
fn features_add_their_steps() {
    let (taken, _, _, succeeded) = run(FULL, |_| false);
    assert_eq!(taken.len(), 26);
    assert_eq!(taken[2], RenderStep::InitTray);
    assert_eq!(taken[3], RenderStep::InitClipboard);
    assert_eq!(taken[6], RenderStep::CreateUpdaterCheck);
    assert_eq!(taken[7], RenderStep::CreateUpdaterShowDialog);
    assert_eq!(taken[8], RenderStep::CreateUpdaterDownloadAndInstall);
    assert!(succeeded);
}

#[test]
fn best_effort_steps_may_fail() {
    let (taken, logged, aborted, succeeded) =
        run(FULL, |step| step.on_failure() != OnFailure::Abort);
    assert_eq!(taken.len(), 26);
    assert_eq!(
        logged,
        vec![
            RenderStep::InitTray,
            RenderStep::InitClipboard,
            RenderStep::CreateAutostartEnable,
            RenderStep::CreateAutostartDisable,
            RenderStep::CreateAutostartIsEnabled,
            RenderStep::RegisterMouseCallbacks,
        ]
    );
    assert_eq!(aborted, None);
    assert!(succeeded);
}

#[test]
fn the_first_fatal_failure_ends_the_setup() {
    for fatal in [
        RenderStep::CreateXComponent,
        RenderStep::CreateImeCallbacks,
        RenderStep::RegisterCallback,
        RenderStep::Mount,
    ] {
        let (taken, _, aborted, succeeded) = run(PLAIN, |step| step == fatal);
        assert_eq!(taken.last(), Some(&fatal));
        assert_eq!(aborted, Some(fatal));
        assert!(!succeeded);
    }
    let (_, _, aborted, _) = run(PLAIN, |_| true);
    assert_eq!(aborted, Some(RenderStep::CreateXComponent));
}
