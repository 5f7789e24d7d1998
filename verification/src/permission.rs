//! Asking the user for permissions.
use vstd::prelude::*;
use crate::error::AbilityError;
use crate::text::{decimal, push_decimal};
use crate::tsfn::{call_failed, is_success, status_debug_text, CallStage};

verus! {

/// The permissions that are asked for.
pub enum PermissionRequest {
    One(String),
    Many(Vec<String>),
}

impl PermissionRequest {
    /// The names asked for, in order.
    pub open spec fn names(self) -> Seq<String> {
        match self {
            PermissionRequest::One(name) => seq![name],
            PermissionRequest::Many(names) => names@,
        }
    }

    /// Whether `other` asks for the same names in the same form.
    pub open spec fn same_as(self, other: PermissionRequest) -> bool {
        &&& self is One <==> other is One
        &&& self.names() == other.names()
    }

    /// The names asked for, in order.
    pub fn permissions(&self) -> (r: Vec<String>)
        ensures
            r@ == self.names(),
    {
        match self {
            PermissionRequest::One(name) => {
                let mut names: Vec<String> = Vec::new();
                names.push(name.clone());
                names
            },
            PermissionRequest::Many(names) => {
                let copy: Vec<String> = names.clone();
                assert(copy@ =~= names@);
                copy
            },
        }
    }

    fn copied(&self) -> (r: PermissionRequest)
        ensures
            r.same_as(*self),
    {
        match self {
            PermissionRequest::One(name) => PermissionRequest::One(name.clone()),
            PermissionRequest::Many(_) => PermissionRequest::Many(self.permissions()),
        }
    }
}

/// The answer: one code, or one for each permission.
pub enum PermissionRequestOutput {
    One(i32),
    Many(Vec<i32>),
}

impl PermissionRequestOutput {
    /// The codes of the answer, in order.
    pub open spec fn codes_of(self) -> Seq<i32> {
        match self {
            PermissionRequestOutput::One(code) => seq![code],
            PermissionRequestOutput::Many(codes) => codes@,
        }
    }

    /// The codes of the answer, in order.
    pub fn into_codes(self) -> (r: Vec<i32>)
        ensures
            r@ == self.codes_of(),
            match self {
                PermissionRequestOutput::One(code) => r@.len() == 1 && r@[0] == code,
                PermissionRequestOutput::Many(codes) => r@ == codes@,
            },
    {
        match self {
            PermissionRequestOutput::One(code) => {
                let mut codes: Vec<i32> = Vec::new();
                codes.push(code);
                codes
            },
            PermissionRequestOutput::Many(codes) => codes,
        }
    }
}

/// A permission and the code that it was answered with.
#[derive(Debug)]
pub struct PermissionRequestCode {
    pub permission: String,
    pub code: i32,
}

/// Each name with the code in the same place.
pub open spec fn paired(names: Seq<String>, codes: Seq<i32>) -> Seq<PermissionRequestCode>
    recommends
        names.len() == codes.len(),
{
    Seq::new(names.len(), |i: int| PermissionRequestCode { permission: names[i], code: codes[i] })
}

/// The message that there are not as many codes as permissions.
pub open spec fn mismatch_text(requested: nat, got: nat) -> Seq<char> {
    "requestPermission result length mismatch: requested "@ + decimal(requested) + ", got "@
        + decimal(got)
}

fn mismatch_message(requested: usize, got: usize) -> (r: String)
    ensures
        r@ == mismatch_text(requested as nat, got as nat),
{
    let mut message: String = "requestPermission result length mismatch: requested ".to_owned();
    push_decimal(&mut message, requested as u64);
    message.append(", got ");
    push_decimal(&mut message, got as u64);
    message
}

/// Gives each permission its code. There has to be one code for each; else the
/// error says how many there are of each.
pub fn pair_permissions(names: &Vec<String>, output: PermissionRequestOutput) -> (r: Result<
    Vec<PermissionRequestCode>,
    String,
>)
    ensures
        match r {
            Ok(pairs) => {
                &&& names@.len() == output.codes_of().len()
                &&& pairs@ == paired(names@, output.codes_of())
            },
            Err(message) => {
                &&& names@.len() != output.codes_of().len()
                &&& message@ == mismatch_text(names@.len(), output.codes_of().len())
            },
        },
{
    let codes: Vec<i32> = output.into_codes();
    if names.len() != codes.len() {
        return Err(mismatch_message(names.len(), codes.len()));
    }
    let mut pairs: Vec<PermissionRequestCode> = Vec::new();
    let mut i: usize = 0;
    while i < names.len()
        invariant
            i <= names@.len(),
            names@.len() == codes@.len(),
            pairs@ == paired(names@, codes@).take(i as int),
        decreases names@.len() - i,
    {
        pairs.push(PermissionRequestCode { permission: names[i].clone(), code: codes[i] });
        i += 1;
        assert(pairs@ =~= paired(names@, codes@).take(i as int));
    }
    assert(pairs@ =~= paired(names@, codes@));
    Ok(pairs)
}

/// What came through the channel on which the answer is awaited.
pub enum PermissionReply<E> {
    /// The script answered.
    Output(PermissionRequestOutput),
    /// The script threw or refused.
    Rejected(E),
    /// Nobody is left who could answer.
    Dropped,
}

/// What became of the outside step that was asked for last.
pub enum PermissionEvent<E> {
    /// Whether the permission function has been created.
    Ready(bool),
    /// The status number with which the call was queued.
    Called(i32),
    /// What was received.
    Received(PermissionReply<E>),
}

/// What is to be done next.
pub enum PermissionAction<E> {
    /// Call the permission function with the input of the request.
    Call,
    Wait,
    Finish(Result<Vec<PermissionRequestCode>, AbilityError<E>>),
}

/// A permission request in progress.
pub struct PermissionCall {
    request: PermissionRequest,
    stage: CallStage,
}

/// The result of a request for `names` that was answered with `reply`.
pub open spec fn answers<E>(
    r: Result<Vec<PermissionRequestCode>, AbilityError<E>>,
    names: Seq<String>,
    reply: PermissionReply<E>,
) -> bool {
    match reply {
        PermissionReply::Output(output) => {
            let codes = output.codes_of();
            if names.len() == codes.len() {
                r matches Ok(pairs) && pairs@ == paired(names, codes)
            } else {
                r matches Err(AbilityError::Reason(reason)) && reason@ == mismatch_text(
                    names.len(),
                    codes.len(),
                )
            }
        },
        PermissionReply::Rejected(e) => r == Err::<Vec<PermissionRequestCode>, AbilityError<E>>(
            AbilityError::Host(e),
        ),
        PermissionReply::Dropped => r matches Err(AbilityError::Reason(reason)) && reason@
            == "requestPermission callback receiver dropped"@,
    }
}

/// Whether a request ends with this event.
pub open spec fn ends_request<E>(event: PermissionEvent<E>) -> bool {
    match event {
        PermissionEvent::Ready(ready) => !ready,
        PermissionEvent::Called(status) => !is_success(status),
        PermissionEvent::Received(_) => true,
    }
}

/// Whether `r` is the result of a request for `names` that ends with this event.
pub open spec fn is_end<E>(
    r: Result<Vec<PermissionRequestCode>, AbilityError<E>>,
    names: Seq<String>,
    event: PermissionEvent<E>,
) -> bool
    recommends
        ends_request(event),
{
    match event {
        PermissionEvent::Ready(_) => r matches Err(AbilityError::Reason(reason)) && reason@
            == "requestPermission threadsafe function is not initialized"@,
        PermissionEvent::Called(status) => r matches Err(AbilityError::Reason(reason)) && reason@
            == "call requestPermission failed with status: "@ + status_debug_text(status),
        PermissionEvent::Received(reply) => answers(r, names, reply),
    }
}

/// The event with which a request ends when each outside step goes as given. A step that
/// is not reached does not count.
pub open spec fn last_event<E>(
    ready: bool,
    status: i32,
    reply: PermissionReply<E>,
) -> PermissionEvent<E> {
    if ends_request(PermissionEvent::<E>::Ready(ready)) {
        PermissionEvent::Ready(ready)
    } else if ends_request(PermissionEvent::<E>::Called(status)) {
        PermissionEvent::Called(status)
    } else {
        PermissionEvent::Received(reply)
    }
}

impl PermissionCall {
    /// The names asked for.
    pub closed spec fn requested(self) -> Seq<String> {
        self.request.names()
    }

    /// What is asked for.
    pub closed spec fn request_of(self) -> PermissionRequest {
        self.request
    }

    /// How far the request has come.
    pub closed spec fn stage_of(self) -> CallStage {
        self.stage
    }

    /// Whether the event answers what was asked for last.
    pub open spec fn expects<E>(self, event: PermissionEvent<E>) -> bool {
        match event {
            PermissionEvent::Ready(_) => self.stage_of() is Starting,
            PermissionEvent::Called(_) => self.stage_of() is Calling,
            PermissionEvent::Received(_) => self.stage_of() is Waiting,
        }
    }

    /// Starts a request: whether the permission function is there has to be found
    /// out.
    pub fn start(request: &PermissionRequest) -> (r: PermissionCall)
        ensures
            r.request_of().same_as(*request),
            r.requested() == request.names(),
            r.stage_of() is Starting,
    {
        PermissionCall { request: request.copied(), stage: CallStage::Starting }
    }

    /// What the permission function is to be called with: the request as it was made.
    pub fn input(&self) -> (r: PermissionRequest)
        ensures
            r.same_as(self.request_of()),
            r.names() == self.requested(),
    {
        self.request.copied()
    }

    /// Takes the next step.
    pub fn advance<E>(&mut self, event: PermissionEvent<E>) -> (r: PermissionAction<E>)
        requires
            old(self).expects(event),
        ensures
            final(self).request_of() == old(self).request_of(),
            final(self).requested() == old(self).requested(),
            if ends_request(event) {
                &&& final(self).stage_of() is Ended
                &&& r matches PermissionAction::Finish(result)
                &&& is_end(result, old(self).requested(), event)
            } else if event is Ready {
                r is Call && final(self).stage_of() is Calling
            } else {
                r is Wait && final(self).stage_of() is Waiting
            },
    {
        match event {
            PermissionEvent::Ready(true) => {
                self.stage = CallStage::Calling;
                PermissionAction::Call
            },
            PermissionEvent::Ready(false) => {
                self.stage = CallStage::Ended;
                PermissionAction::Finish(
                    Err(
                        AbilityError::Reason(
                            "requestPermission threadsafe function is not initialized".to_owned(),
                        ),
                    ),
                )
            },
            PermissionEvent::Called(status) => {
                if status == 0 {
                    self.stage = CallStage::Waiting;
                    PermissionAction::Wait
                } else {
                    self.stage = CallStage::Ended;
                    PermissionAction::Finish(
                        Err(
                            AbilityError::Reason(
                                call_failed("call requestPermission failed with status: ", status),
                            ),
                        ),
                    )
                }
            },
            PermissionEvent::Received(reply) => {
                self.stage = CallStage::Ended;
                PermissionAction::Finish(permission_result(&self.request.permissions(), reply))
            },
        }
    }
}

/// The result of a request that was answered with `reply`.
pub fn permission_result<E>(names: &Vec<String>, reply: PermissionReply<E>) -> (r: Result<
    Vec<PermissionRequestCode>,
    AbilityError<E>,
>)
    ensures
        answers(r, names@, reply),
{
    match reply {
        PermissionReply::Output(output) => match pair_permissions(names, output) {
            Ok(pairs) => Ok(pairs),
            Err(message) => Err(AbilityError::Reason(message)),
        },
        PermissionReply::Rejected(e) => Err(AbilityError::Host(e)),
        PermissionReply::Dropped => Err(
            AbilityError::Reason("requestPermission callback receiver dropped".to_owned()),
        ),
    }
}

/// A request succeeds exactly where the permission function is there, the call is
/// queued, and the answer has one code for each permission. Then every permission comes
/// back, in the order of the request, with the code in its place.
pub proof fn permission_request_succeeds_iff<E>(
    r: Result<Vec<PermissionRequestCode>, AbilityError<E>>,
    names: Seq<String>,
    ready: bool,
    status: i32,
    reply: PermissionReply<E>,
)
    requires
        is_end(r, names, last_event(ready, status, reply)),
    ensures
        r is Ok <==> ready && status == 0 && (reply matches PermissionReply::Output(output)
            && output.codes_of().len() == names.len()),
        r matches Ok(pairs) ==> {
            &&& pairs@.len() == names.len()
            &&& forall|i: int|
                0 <= i < names.len() ==> (#[trigger] pairs@[i]).permission == names[i]
                    && pairs@[i].code == reply->Output_0.codes_of()[i]
        },
{
}

/// An answer with a single code is the answer to a single permission: that permission
/// comes back with that very number. For any other number of permissions it is an error.
pub proof fn single_answer_keeps_its_code<E>(
    r: Result<Vec<PermissionRequestCode>, AbilityError<E>>,
    names: Seq<String>,
    code: i32,
)
    requires
        answers(r, names, PermissionReply::Output(PermissionRequestOutput::One(code))),
    ensures
        r is Ok <==> names.len() == 1,
        r matches Ok(pairs) ==> pairs@.len() == 1 && pairs@[0].permission == names[0]
            && pairs@[0].code == code,
{
}

/// An answer with a list of codes gives each permission the number in its place. Where
/// the two lists differ in length it is an error.
pub proof fn list_answer_keeps_its_codes<E>(
    r: Result<Vec<PermissionRequestCode>, AbilityError<E>>,
    names: Seq<String>,
    codes: Vec<i32>,
)
    requires
        answers(r, names, PermissionReply::Output(PermissionRequestOutput::Many(codes))),
    ensures
        r is Ok <==> names.len() == codes@.len(),
        r matches Ok(pairs) ==> {
            &&& pairs@.len() == codes@.len()
            &&& forall|i: int|
                0 <= i < codes@.len() ==> (#[trigger] pairs@[i]).code == codes@[i]
                    && pairs@[i].permission == names[i]
        },
{
}

/// Pairing keeps both lists as they are: the names of the pairs are the names, and their
/// codes are the codes.
pub proof fn pairs_keep_names_and_codes(names: Seq<String>, output: PermissionRequestOutput, i: int)
    requires
        0 <= i < names.len(),
    ensures
        ({
            let pairs = paired(names, output.codes_of());
            &&& pairs.len() == names.len()
            &&& pairs[i].permission == names[i]
            &&& match output {
                PermissionRequestOutput::One(code) => i == 0 ==> pairs[i].code == code,
                PermissionRequestOutput::Many(codes) => i < codes@.len() ==> pairs[i].code
                    == codes@[i],
            }
        }),
        match output {
            PermissionRequestOutput::One(_) => output.codes_of().len() == 1,
            PermissionRequestOutput::Many(codes) => output.codes_of().len() == codes@.len(),
        },
{
}

/// A request names what it was made with, and what is handed to the script names the
/// same, one as one and many as many.
pub proof fn request_is_handed_on(request: PermissionRequest, input: PermissionRequest)
    requires
        input.same_as(request),
    ensures
        match request {
            PermissionRequest::One(name) => input == PermissionRequest::One(name) && request.names()
                == seq![name],
            PermissionRequest::Many(names) => (input matches PermissionRequest::Many(given)
                && given@ == names@) && request.names() == names@,
        },
{
    if request is One {
        assert(input.names()[0] == request.names()[0]);
    }
}

/// An error of the script is passed on as it is, and nothing else becomes such an error.
pub proof fn script_error_is_passed_on<E>(
    r: Result<Vec<PermissionRequestCode>, AbilityError<E>>,
    names: Seq<String>,
    ready: bool,
    status: i32,
    reply: PermissionReply<E>,
    e: E,
)
    requires
        is_end(r, names, last_event(ready, status, reply)),
    ensures
        r == Err::<Vec<PermissionRequestCode>, AbilityError<E>>(AbilityError::Host(e)) <==> ready
            && status == 0 && reply == PermissionReply::Rejected(e),
        !(r matches Err(AbilityError::OnlyRunWithMainThread(_))),
{
}

/// Each way in which a request fails without the script has its own message, which says
/// what went wrong.
pub proof fn failed_request_says_why<E>(
    r: Result<Vec<PermissionRequestCode>, AbilityError<E>>,
    names: Seq<String>,
    ready: bool,
    status: i32,
    reply: PermissionReply<E>,
)
    requires
        is_end(r, names, last_event(ready, status, reply)),
    ensures
        !ready ==> (r matches Err(AbilityError::Reason(reason)) && reason@
            == "requestPermission threadsafe function is not initialized"@),
        ready && status != 0 ==> (r matches Err(AbilityError::Reason(reason)) && reason@
            == "call requestPermission failed with status: "@ + status_debug_text(status)),
        ready && status == 0 && reply is Dropped ==> (r matches Err(AbilityError::Reason(reason))
            && reason@ == "requestPermission callback receiver dropped"@),
        ready && status == 0 && (reply matches PermissionReply::Output(output) && (match output {
            PermissionRequestOutput::One(_) => names.len() != 1,
            PermissionRequestOutput::Many(codes) => names.len() != codes@.len(),
        })) ==> (r matches Err(AbilityError::Reason(reason)) && reason@
            == "requestPermission result length mismatch: requested "@ + decimal(names.len())
            + ", got "@ + decimal(
            match reply->Output_0 {
                PermissionRequestOutput::One(_) => 1,
                PermissionRequestOutput::Many(codes) => codes@.len(),
            },
        )),
{
}

/// A request goes on exactly where the permission function is there and the call was
/// queued, and ends with whatever is received.
pub proof fn request_goes_step_by_step<E>(ready: bool, status: i32, reply: PermissionReply<E>)
    ensures
        ends_request(PermissionEvent::<E>::Ready(ready)) <==> !ready,
        ends_request(PermissionEvent::<E>::Called(status)) <==> status != 0,
        ends_request(PermissionEvent::Received(reply)),
{
}

} // verus!
