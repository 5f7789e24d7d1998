use openharmony_ability::error::AbilityError;
use openharmony_ability::geometry::AvoidAreaType;
use openharmony_ability::helper::{
    fetched_avoid_area, ColorMode, HelperAction, HelperCall, HelperEnd, HelperEvent, HelperFunction,
};
use openharmony_ability::object::{JsObject, JsValue};
use openharmony_ability::permission::{
    pair_permissions, permission_result, PermissionAction, PermissionCall, PermissionEvent,
    PermissionReply, PermissionRequest, PermissionRequestOutput,
};
use openharmony_ability::restart::{restart_code, Restart, RestartAction, RestartEvent};
use openharmony_ability::settlement::{received_reply, PermissionSettlement};
use openharmony_ability::tsfn::{call_failed, failure_message};

fn run(
    call: &mut HelperCall,
    found: (bool, bool),
    fetched: Result<(), &'static str>,
    function: Result<(), &'static str>,
    returned: Result<(), &'static str>,
) -> (Vec<String>, HelperEnd<&'static str>) {
    let mut taken = Vec::new();
    let mut event = HelperEvent::Found { helper: found.0, main_thread: found.1 };
    loop {
        event = match call.advance(event) {
            HelperAction::FetchHelper => {
                taken.push("helper".to_string());
                HelperEvent::HelperFetched(fetched)
            }
            HelperAction::FetchFunction(name) => {
                taken.push(name.to_string());
                HelperEvent::FunctionFetched(function)
            }
            HelperAction::Call(argument) => {
                taken.push(format!("call {}", argument));
                HelperEvent::Returned(returned)
            }
            HelperAction::Finish(end) => return (taken, end),
        }
    }
}

#[test]
fn exit_is_called_with_its_code() {
    let mut call = HelperCall::start(HelperFunction::Exit, 3);
    let (taken, end) = run(&mut call, (true, true), Ok(()), Ok(()), Ok(()));
    assert_eq!(taken, vec!["helper", "exit", "call 3"]);
    assert!(call.result(end).is_ok());
}

#[test]
fn without_a_helper_nothing_happens() {
    let mut call = HelperCall::start(HelperFunction::Exit, 3);
    let (taken, end) = run(&mut call, (false, false), Err("a"), Err("b"), Err("c"));
    assert!(taken.is_empty());
    assert!(call.result(end).is_ok());
}

#[test]
fn outside_the_main_thread_is_an_error() {
    let mut call = HelperCall::start(HelperFunction::Exit, 3);
    let (taken, end) = run(&mut call, (true, false), Ok(()), Ok(()), Ok(()));
    assert!(taken.is_empty());
    match call.result(end) {
        Err(AbilityError::OnlyRunWithMainThread(name)) => assert_eq!(name, "exit"),
        _ => panic!("expected an error"),
    }
    let mut call = HelperCall::start(HelperFunction::SetColorMode, 0);
    let (_, end) = run(&mut call, (true, false), Ok(()), Ok(()), Ok(()));
    match call.result(end) {
        Err(AbilityError::OnlyRunWithMainThread(name)) => assert_eq!(name, "set_color_mode"),
        _ => panic!("expected an error"),
    }
}

#[test]
fn a_failed_step_is_passed_on() {
    let mut call = HelperCall::start(HelperFunction::SetColorMode, ColorMode::NotSet.code());
    let (taken, end) = run(&mut call, (true, true), Ok(()), Ok(()), Err("thrown"));
    assert_eq!(taken, vec!["helper", "setColorMode", "call -1"]);
    assert!(matches!(call.result(end), Err(AbilityError::Host("thrown"))));
    let mut call = HelperCall::start(HelperFunction::SetColorMode, ColorMode::Dark.code());
    let (taken, end) = run(&mut call, (true, true), Ok(()), Err("missing"), Ok(()));
    assert_eq!(taken, vec!["helper", "setColorMode"]);
    assert!(matches!(call.result(end), Err(AbilityError::Host("missing"))));
    let mut call = HelperCall::start(HelperFunction::Exit, 1);
    let (taken, end) = run(&mut call, (true, true), Err("gone"), Ok(()), Ok(()));
    assert_eq!(taken, vec!["helper"]);
    assert!(matches!(call.result(end), Err(AbilityError::Host("gone"))));
}

#[test]
fn color_modes_have_the_platform_numbers() {
    assert_eq!(ColorMode::NotSet.code(), -1);
    assert_eq!(ColorMode::Dark.code(), 0);
    assert_eq!(ColorMode::Light.code(), 1);
}

fn rect() -> JsValue {
    let names = ["top", "left", "width", "height"];
    JsValue::Object(JsObject {
        properties: names.iter().map(|n| (n.to_string(), JsValue::Number(1))).collect(),
    })
}

#[test]
fn avoid_area_comes_from_what_the_helper_returned() {
    let mut properties = vec![("visible".to_string(), JsValue::Bool(false))];
    for name in ["leftRect", "topRect", "rightRect", "bottomRect"] {
        properties.push((name.to_string(), rect()));
    }
    let options = Some(JsObject {
        properties: vec![
            ("type".to_string(), JsValue::Number(0)),
            ("area".to_string(), JsValue::Object(JsObject { properties })),
        ],
    });
    let mut call = HelperCall::start(HelperFunction::GetWindowAvoidArea, 0);
    let (taken, end) = run(&mut call, (true, true), Ok(()), Ok(()), Ok(()));
    assert_eq!(taken, vec!["helper", "getWindowAvoidArea", "call 0"]);
    let (area_type, area) = fetched_avoid_area(&end, &options).unwrap();
    assert_eq!(area_type, AvoidAreaType::System);
    assert!(!area.visible);
    assert!(fetched_avoid_area(&end, &None).is_none());
    let failed: HelperEnd<&str> = HelperEnd::Failed("x");
    assert!(fetched_avoid_area(&failed, &options).is_none());
    assert!(fetched_avoid_area(&HelperEnd::<&str>::NoHelper, &options).is_none());
    assert!(fetched_avoid_area(&HelperEnd::<&str>::NotMainThread, &options).is_none());
}

fn reason(action: RestartAction) -> String {
    match action {
        RestartAction::Finish(Err(reason)) => reason,
        _ => panic!("expected a failure"),
    }
}

#[test]
fn restart_passes_the_code_on() {
    let mut restart = Restart::start();
    assert!(matches!(restart.advance(RestartEvent::Ready(true)), RestartAction::Call));
    assert!(matches!(restart.advance(RestartEvent::Called(0)), RestartAction::Wait));
    assert!(matches!(
        restart.advance(RestartEvent::Received(Some(-5))),
        RestartAction::Finish(Ok(-5))
    ));
}

#[test]
fn positive_restart_code_is_a_failure() {
    for (code, reported) in [(5, -1), (1, -1), (i32::MAX, -1), (0, 0), (-1, -1)] {
        let mut restart = Restart::start();
        restart.advance(RestartEvent::Ready(true));
        restart.advance(RestartEvent::Called(0));
        let answer: Result<JsValue, ()> = Ok(JsValue::Number(code));
        match restart.advance(RestartEvent::Received(Some(restart_code(&answer)))) {
            RestartAction::Finish(Ok(result)) => assert_eq!(result, reported),
            _ => panic!("expected a code"),
        }
    }
}

#[test]
fn restart_fails_for_three_reasons() {
    let mut restart = Restart::start();
    assert_eq!(
        reason(restart.advance(RestartEvent::Ready(false))),
        "RESTART_TSFN not initialized"
    );
    let mut restart = Restart::start();
    restart.advance(RestartEvent::Ready(true));
    assert_eq!(
        reason(restart.advance(RestartEvent::Called(16))),
        "call restart TSFN failed: Closing"
    );
    let mut restart = Restart::start();
    restart.advance(RestartEvent::Ready(true));
    restart.advance(RestartEvent::Called(0));
    assert_eq!(
        reason(restart.advance(RestartEvent::Received(None))),
        "restart TSFN channel closed"
    );
}

#[test]
fn restart_code_is_minus_one_without_a_number() {
    assert_eq!(restart_code::<()>(&Ok(JsValue::Number(0))), 0);
    assert_eq!(restart_code::<()>(&Ok(JsValue::Number(-16))), -16);
    assert_eq!(restart_code::<()>(&Ok(JsValue::Bool(true))), -1);
    assert_eq!(restart_code::<()>(&Ok(JsValue::Undefined)), -1);
    assert_eq!(restart_code::<&str>(&Err("thrown")), -1);
}

#[test]
fn status_numbers_become_text() {
    assert_eq!(call_failed("status ", 15), "status QueueFull");
    assert_eq!(call_failed("", 9), "GenericFailure");
    assert_eq!(call_failed("", 4711), "Unknown");
    assert_eq!(failure_message("a: ", "b"), "a: b");
}

fn names(names: &[&str]) -> Vec<String> {
    names.iter().map(|n| n.to_string()).collect()
}

#[test]
fn permissions_are_paired_with_codes() {
    let pairs =
        pair_permissions(&names(&["camera", "mic"]), PermissionRequestOutput::Many(vec![0, -1]))
            .unwrap();
    assert_eq!(pairs.len(), 2);
    assert_eq!(pairs[0].permission, "camera");
    assert_eq!(pairs[0].code, 0);
    assert_eq!(pairs[1].permission, "mic");
    assert_eq!(pairs[1].code, -1);
    let pairs = pair_permissions(&names(&["camera"]), PermissionRequestOutput::One(2)).unwrap();
    assert_eq!(pairs[0].code, 2);
    assert!(pair_permissions(&names(&[]), PermissionRequestOutput::Many(vec![])).unwrap().is_empty());
}

#[test]
fn unequal_lengths_are_an_error() {
    let error =
        pair_permissions(&names(&["camera", "mic"]), PermissionRequestOutput::One(0)).unwrap_err();
    assert_eq!(error, "requestPermission result length mismatch: requested 2, got 1");
    let error = pair_permissions(&names(&["camera"]), PermissionRequestOutput::Many(vec![0; 12]))
        .unwrap_err();
    assert_eq!(error, "requestPermission result length mismatch: requested 1, got 12");
}

fn permission_reason(action: PermissionAction<&'static str>) -> String {
    match action {
        PermissionAction::Finish(Err(AbilityError::Reason(reason))) => reason,
        _ => panic!("expected a failure"),
    }
}

#[test]
fn permission_request_runs_through() {
    let request = PermissionRequest::Many(names(&["camera", "mic"]));
    assert_eq!(request.permissions(), names(&["camera", "mic"]));
    let mut call = PermissionCall::start(&request);
    assert!(matches!(
        call.advance(PermissionEvent::<&str>::Ready(true)),
        PermissionAction::Call
    ));
    match call.input() {
        PermissionRequest::Many(input) => assert_eq!(input, names(&["camera", "mic"])),
        PermissionRequest::One(_) => panic!("expected a list"),
    }
    assert!(matches!(call.advance(PermissionEvent::<&str>::Called(0)), PermissionAction::Wait));
    let output = PermissionReply::Output(PermissionRequestOutput::Many(vec![1, 2]));
    match call.advance(PermissionEvent::<&str>::Received(output)) {
        PermissionAction::Finish(Ok(pairs)) => {
            assert_eq!(pairs[1].permission, "mic");
            assert_eq!(pairs[1].code, 2);
        }
        _ => panic!("expected the codes"),
    }
}

#[test]
fn permission_request_fails_before_the_answer() {
    let request = PermissionRequest::One("camera".to_string());
    let mut call = PermissionCall::start(&request);
    assert!(matches!(call.input(), PermissionRequest::One(name) if name == "camera"));
    assert_eq!(
        permission_reason(call.advance(PermissionEvent::Ready(false))),
        "requestPermission threadsafe function is not initialized"
    );
    let mut call = PermissionCall::start(&request);
    call.advance(PermissionEvent::<&str>::Ready(true));
    assert_eq!(
        permission_reason(call.advance(PermissionEvent::Called(1))),
        "call requestPermission failed with status: InvalidArg"
    );
}

#[test]
fn permission_reply_can_be_an_error() {
    let requested = names(&["camera"]);
    match permission_result::<&str>(&requested, PermissionReply::Dropped) {
        Err(AbilityError::Reason(reason)) => {
            assert_eq!(reason, "requestPermission callback receiver dropped")
        }
        _ => panic!("expected an error"),
    }
    assert!(matches!(
        permission_result(&requested, PermissionReply::Rejected("denied")),
        Err(AbilityError::Host("denied"))
    ));
    match permission_result::<&str>(
        &requested,
        PermissionReply::Output(PermissionRequestOutput::Many(vec![])),
    ) {
        Err(AbilityError::Reason(reason)) => {
            assert_eq!(reason, "requestPermission result length mismatch: requested 1, got 0")
        }
        _ => panic!("expected an error"),
    }
}

#[test]
fn only_the_first_settlement_is_sent() {
    let (mut settlement, mut receiver) = PermissionSettlement::<&str>::new();
    assert!(matches!(receiver.try_recv(), Ok(None)));
    assert!(matches!(settlement.settle(Ok(PermissionRequestOutput::One(3))), Some(Ok(()))));
    assert!(settlement.settle(Err("late")).is_none());
    match receiver.try_recv() {
        Ok(Some(Ok(PermissionRequestOutput::One(code)))) => assert_eq!(code, 3),
        _ => panic!("expected the first answer"),
    }
}

#[test]
fn unsent_settlement_comes_back() {
    let (mut settlement, receiver) = PermissionSettlement::<&str>::new();
    drop(receiver);
    assert!(matches!(settlement.settle(Err("denied")), Some(Err(Err("denied")))));
}

#[test]
fn dropped_settlement_is_a_dropped_reply() {
    let (settlement, mut receiver) = PermissionSettlement::<&str>::new();
    drop(settlement);
    let received = receiver.try_recv().map(|answer| answer.unwrap());
    assert!(matches!(received_reply(received), PermissionReply::Dropped));
    assert!(matches!(
        received_reply::<&str>(Ok(Ok(PermissionRequestOutput::One(1)))),
        PermissionReply::Output(PermissionRequestOutput::One(1))
    ));
    assert!(matches!(
        received_reply(Ok(Err("denied"))),
        PermissionReply::Rejected("denied")
    ));
}
