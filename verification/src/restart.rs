//! Restarting the app.
use vstd::prelude::*;
use crate::object::JsValue;
use crate::tsfn::{call_failed, is_success, status_debug_text, CallStage};

verus! {

/// What became of the outside step that was asked for last.
pub enum RestartEvent {
    /// Whether the restart function has been created.
    Ready(bool),
    /// The status number with which the call was queued.
    Called(i32),
    /// The code that came back, unless the channel closed first.
    Received(Option<i32>),
}

/// What is to be done next. An error is the reason for it.
pub enum RestartAction {
    Call,
    Wait,
    Finish(Result<i32, String>),
}

/// The code that a restart reports for the code that came back: zero for success, a
/// negative one for failure. A positive code means neither and counts as failure.
pub open spec fn reported(code: i32) -> i32 {
    if code <= 0 {
        code
    } else {
        (-1) as i32
    }
}

/// How a restart ends with this event, if it does: with a code, or for a reason.
pub open spec fn restart_end(event: RestartEvent) -> Option<Result<i32, Seq<char>>> {
    match event {
        RestartEvent::Ready(ready) => if ready {
            None
        } else {
            Some(Err("RESTART_TSFN not initialized"@))
        },
        RestartEvent::Called(status) => if is_success(status) {
            None
        } else {
            Some(Err("call restart TSFN failed: "@ + status_debug_text(status)))
        },
        RestartEvent::Received(Some(code)) => Some(Ok(reported(code))),
        RestartEvent::Received(None) => Some(Err("restart TSFN channel closed"@)),
    }
}

/// Whether `r` is the result of a restart that ended like this.
pub open spec fn is_restart_result(r: Result<i32, String>, end: Result<i32, Seq<char>>) -> bool {
    match (r, end) {
        (Ok(code), Ok(expected)) => code == expected,
        (Err(reason), Err(expected)) => reason@ == expected,
        _ => false,
    }
}

/// How a restart ends when each outside step goes as given. A step that is not reached
/// does not count.
pub open spec fn end_of_restart(ready: bool, status: i32, received: Option<i32>) -> Result<
    i32,
    Seq<char>,
> {
    match restart_end(RestartEvent::Ready(ready)) {
        Some(end) => end,
        None => match restart_end(RestartEvent::Called(status)) {
            Some(end) => end,
            None => restart_end(RestartEvent::Received(received))->Some_0,
        },
    }
}

/// A restart in progress.
pub struct Restart {
    stage: CallStage,
}

impl Restart {
    /// How far the restart has come.
    pub closed spec fn stage_of(self) -> CallStage {
        self.stage
    }

    /// Whether the event answers what was asked for last.
    pub open spec fn expects(self, event: RestartEvent) -> bool {
        match event {
            RestartEvent::Ready(_) => self.stage_of() is Starting,
            RestartEvent::Called(_) => self.stage_of() is Calling,
            RestartEvent::Received(_) => self.stage_of() is Waiting,
        }
    }

    /// Starts a restart: whether the restart function is there has to be found out.
    pub fn start() -> (r: Restart)
        ensures
            r.stage_of() is Starting,
    {
        Restart { stage: CallStage::Starting }
    }

    /// Takes the next step.
    pub fn advance(&mut self, event: RestartEvent) -> (r: RestartAction)
        requires
            old(self).expects(event),
        ensures
            match restart_end(event) {
                Some(end) => {
                    &&& final(self).stage_of() is Ended
                    &&& r matches RestartAction::Finish(result)
                    &&& is_restart_result(result, end)
                },
                None => if event is Ready {
                    r is Call && final(self).stage_of() is Calling
                } else {
                    r is Wait && final(self).stage_of() is Waiting
                },
            },
    {
        match event {
            RestartEvent::Ready(true) => {
                self.stage = CallStage::Calling;
                RestartAction::Call
            },
            RestartEvent::Ready(false) => {
                self.stage = CallStage::Ended;
                RestartAction::Finish(Err("RESTART_TSFN not initialized".to_owned()))
            },
            RestartEvent::Called(status) => {
                if status == 0 {
                    self.stage = CallStage::Waiting;
                    RestartAction::Wait
                } else {
                    self.stage = CallStage::Ended;
                    RestartAction::Finish(Err(call_failed("call restart TSFN failed: ", status)))
                }
            },
            RestartEvent::Received(Some(code)) => {
                self.stage = CallStage::Ended;
                RestartAction::Finish(
                    Ok(
                        if code <= 0 {
                            code
                        } else {
                            -1
                        },
                    ),
                )
            },
            RestartEvent::Received(None) => {
                self.stage = CallStage::Ended;
                RestartAction::Finish(Err("restart TSFN channel closed".to_owned()))
            },
        }
    }
}

/// The code that the script's answer stands for: the number itself, or -1 where
/// the answer is no number or the call threw.
pub open spec fn answer_code<E>(answer: Result<JsValue, E>) -> int {
    match answer {
        Ok(JsValue::Number(code)) => code as int,
        _ => -1,
    }
}

/// The code to send on when the script answers.
pub fn restart_code<E>(answer: &Result<JsValue, E>) -> (r: i32)
    ensures
        r == answer_code(*answer),
{
    match answer {
        Ok(JsValue::Number(code)) => *code,
        _ => -1,
    }
}

/// A restart has a code exactly where the restart function is there, the call is queued
/// and an answer comes. It is never positive: zero is success, anything else failure.
pub proof fn restart_succeeds_iff(ready: bool, status: i32, received: Option<i32>)
    ensures
        end_of_restart(ready, status, received) is Ok <==> ready && status == 0 && received is Some,
        end_of_restart(ready, status, received) matches Ok(code) ==> code <= 0 && received
            is Some && (code == received->Some_0 || received->Some_0 > 0 && code == -1),
{
}

/// Once the call is queued, the restart succeeds exactly where the script answers with
/// zero. A negative answer is the code of the failure; a script that throws, or answers
/// with anything else, is a failure too.
pub proof fn restart_reports_script_answer<E>(status: i32, answer: Result<JsValue, E>)
    requires
        is_success(status),
    ensures
        ({
            let end = end_of_restart(true, status, Some(answer_code(answer) as i32));
            &&& end is Ok
            &&& end->Ok_0 == 0 <==> answer == Ok::<JsValue, E>(JsValue::Number(0))
            &&& end->Ok_0 != 0 ==> end->Ok_0 < 0
            &&& answer matches Ok(JsValue::Number(number)) ==> number <= 0 ==> end->Ok_0 == number
        }),
{
}

/// Zero and every negative code come back as they are; a positive one comes back as a
/// failure.
pub proof fn restart_keeps_codes(code: i32)
    ensures
        code <= 0 ==> end_of_restart(true, 0, Some(code)) == Ok::<i32, Seq<char>>(code),
        code > 0 ==> end_of_restart(true, 0, Some(code)) == Ok::<i32, Seq<char>>((-1) as i32),
{
}

/// Each way in which a restart fails has its own message, which says what went wrong.
pub proof fn failed_restart_says_why(ready: bool, status: i32, received: Option<i32>)
    ensures
        ({
            let end = end_of_restart(ready, status, received);
            &&& !ready ==> end == Err::<i32, Seq<char>>("RESTART_TSFN not initialized"@)
            &&& ready && status != 0 ==> end == Err::<i32, Seq<char>>(
                "call restart TSFN failed: "@ + status_debug_text(status),
            )
            &&& ready && status == 0 && received is None ==> end == Err::<i32, Seq<char>>(
                "restart TSFN channel closed"@,
            )
        }),
{
}

/// A restart goes on exactly where the function is there and the call was queued, and ends
/// with whatever is received.
pub proof fn restart_goes_step_by_step(ready: bool, status: i32, received: Option<i32>)
    ensures
        restart_end(RestartEvent::Ready(ready)) is None <==> ready,
        restart_end(RestartEvent::Called(status)) is None <==> status == 0,
        restart_end(RestartEvent::Received(received)) is Some,
        restart_end(RestartEvent::Received(received))->Some_0 is Ok <==> received is Some,
        received matches Some(code) ==> code <= 0 ==> restart_end(RestartEvent::Received(received))
            == Some(Ok::<i32, Seq<char>>(code)),
        received matches Some(code) ==> code > 0 ==> restart_end(RestartEvent::Received(received))
            == Some(Ok::<i32, Seq<char>>((-1) as i32)),
{
}

/// A result stands for one end only: it has the code of that end, or its message.
pub proof fn restart_result_tells_end(r: Result<i32, String>, end: Result<i32, Seq<char>>)
    requires
        is_restart_result(r, end),
    ensures
        r matches Ok(code) ==> end == Ok::<i32, Seq<char>>(code),
        r matches Err(reason) ==> end == Err::<i32, Seq<char>>(reason@),
{
}

/// The code of an answer is its number, and negative where it has none.
pub proof fn answer_code_is_its_number<E>(answer: Result<JsValue, E>, number: i32)
    ensures
        answer == Ok::<JsValue, E>(JsValue::Number(number)) ==> answer_code(answer) == number,
        !(answer matches Ok(JsValue::Number(_))) ==> answer_code(answer) == -1,
{
}

} // verus!
