//! Sending a handler's result to the Lambda Runtime API.
//!
//! A call first builds the request, then sends it. A response with any status
//! completes the call successfully, so the runtime keeps going despite API
//! errors; a status outside `200..=299` is logged together with the body of the
//! answer, and a `410 Gone` (the function timed out) is called out. Failing to
//! build the request or to reach the API fails the call with the builder's or
//! the transport's own error.

use vstd::prelude::*;
use crate::snapstart::{is_success, spec_is_success};

verus! {

/// A log line the call emits.
#[derive(Debug, Clone, PartialEq, Eq)]
pub enum ApiLog {
    /// The request could not be built.
    RequestBuildFailed,
    /// The API answered with a status outside `200..=299`: the status and the
    /// body of the answer.
    NonSuccessStatus(u16, String),
    /// The API answered `410 Gone`: the invocation timed out.
    FunctionTimeout,
    /// The request could not be delivered to the API.
    SendFailed,
    /// The call failed in transport.
    RequestFailed,
}

/// The mathematical value of a log line.
pub enum ApiLogView {
    RequestBuildFailed,
    NonSuccessStatus(u16, Seq<char>),
    FunctionTimeout,
    SendFailed,
    RequestFailed,
}

impl View for ApiLog {
    type V = ApiLogView;

    open spec fn view(&self) -> ApiLogView {
        match self {
            ApiLog::RequestBuildFailed => ApiLogView::RequestBuildFailed,
            ApiLog::NonSuccessStatus(s, b) => ApiLogView::NonSuccessStatus(*s, b@),
            ApiLog::FunctionTimeout => ApiLogView::FunctionTimeout,
            ApiLog::SendFailed => ApiLogView::SendFailed,
            ApiLog::RequestFailed => ApiLogView::RequestFailed,
        }
    }
}

/// The views of a list of log lines.
pub open spec fn logs_view(logs: Seq<ApiLog>) -> Seq<ApiLogView> {
    logs.map_values(|l: ApiLog| l@)
}

/// The text of a log line (the status and body of a non-success answer are
/// logged beside it).
pub open spec fn spec_log_message(log: ApiLogView) -> Seq<char> {
    match log {
        ApiLogView::RequestBuildFailed => "failed to build Lambda Runtime API request"@,
        ApiLogView::NonSuccessStatus(_, _) => "Lambda Runtime API returned non-200 response"@,
        ApiLogView::FunctionTimeout => "Lambda function timeout!"@,
        ApiLogView::SendFailed => "failed to send request to Lambda Runtime API"@,
        ApiLogView::RequestFailed => "Lambda Runtime API request failed"@,
    }
}

impl ApiLog {
    /// The text of the log line.
    pub fn message(&self) -> (r: &'static str)
        ensures
            r@ == spec_log_message(self@),
    {
        match self {
            ApiLog::RequestBuildFailed => "failed to build Lambda Runtime API request",
            ApiLog::NonSuccessStatus(_, _) => "Lambda Runtime API returned non-200 response",
            ApiLog::FunctionTimeout => "Lambda function timeout!",
            ApiLog::SendFailed => "failed to send request to Lambda Runtime API",
            ApiLog::RequestFailed => "Lambda Runtime API request failed",
        }
    }
}

/// Where a call stands.
#[derive(Debug, Clone, Copy, PartialEq, Eq, Structural)]
pub enum ApiCallStage {
    /// The inner service is building the request.
    BuildingRequest,
    /// The request was sent; the response is awaited.
    AwaitingResponse,
    /// The call is over.
    Done,
}

/// What happened to the call; the errors are those of the builder and of the
/// transport.
#[derive(Debug)]
pub enum ApiCallEvent<E> {
    /// The request was built.
    RequestBuilt,
    /// Building the request failed with this error.
    RequestBuildFailed(E),
    /// The API answered with this status and body.
    Responded(u16, String),
    /// The request could not be delivered: the transport error.
    TransportFailed(E),
}

/// What the caller does next.
#[derive(Debug, PartialEq, Eq)]
pub enum ApiCallAction<E> {
    /// Send the request to the Runtime API.
    Send,
    /// The call is over with this result.
    Finish(Result<(), E>),
    /// The event does not fit the stage; nothing to do.
    Idle,
}

/// One step of a call: the next stage, the action, and the log lines.
pub open spec fn spec_api_step<E>(stage: ApiCallStage, event: ApiCallEvent<E>) -> (ApiCallStage, ApiCallAction<E>, Seq<ApiLogView>) {
    match stage {
        ApiCallStage::BuildingRequest => match event {
            ApiCallEvent::RequestBuilt => (ApiCallStage::AwaitingResponse, ApiCallAction::Send, Seq::empty()),
            ApiCallEvent::RequestBuildFailed(e) =>
                (ApiCallStage::Done, ApiCallAction::Finish(Err(e)), seq![ApiLogView::RequestBuildFailed]),
            _ => (stage, ApiCallAction::Idle, Seq::empty()),
        },
        ApiCallStage::AwaitingResponse => match event {
            ApiCallEvent::Responded(status, body) => if spec_is_success(status) {
                (ApiCallStage::Done, ApiCallAction::Finish(Ok(())), Seq::empty())
            } else if status == 410 {
                (ApiCallStage::Done, ApiCallAction::Finish(Ok(())),
                    seq![ApiLogView::NonSuccessStatus(status, body@), ApiLogView::FunctionTimeout])
            } else {
                (ApiCallStage::Done, ApiCallAction::Finish(Ok(())), seq![ApiLogView::NonSuccessStatus(status, body@)])
            },
            ApiCallEvent::TransportFailed(e) =>
                (ApiCallStage::Done, ApiCallAction::Finish(Err(e)), seq![ApiLogView::SendFailed, ApiLogView::RequestFailed]),
            _ => (stage, ApiCallAction::Idle, Seq::empty()),
        },
        ApiCallStage::Done => (stage, ApiCallAction::Idle, Seq::empty()),
    }
}

/// The state of one call to the Runtime API.
#[derive(Debug, Clone, Copy, PartialEq, Eq, Structural)]
pub struct ApiCall {
    pub stage: ApiCallStage,
}

impl ApiCall {
    /// A call whose request is being built.
    pub fn new() -> (r: ApiCall)
        ensures
            r.stage == ApiCallStage::BuildingRequest,
    {
        ApiCall { stage: ApiCallStage::BuildingRequest }
    }

    /// Feeds what happened and gives the next action and the lines to log.
    /// The error a call fails with is the one the event carries.
    pub fn step<E>(&mut self, event: ApiCallEvent<E>) -> (r: (ApiCallAction<E>, Vec<ApiLog>))
        ensures
            (final(self).stage, r.0, logs_view(r.1@)) == spec_api_step(old(self).stage, event),
    {
        let mut logs: Vec<ApiLog> = Vec::new();
        match self.stage {
            ApiCallStage::BuildingRequest => match event {
                ApiCallEvent::RequestBuilt => {
                    self.stage = ApiCallStage::AwaitingResponse;
                    assert(logs_view(logs@) =~= Seq::<ApiLogView>::empty());
                    (ApiCallAction::Send, logs)
                },
                ApiCallEvent::RequestBuildFailed(e) => {
                    self.stage = ApiCallStage::Done;
                    logs.push(ApiLog::RequestBuildFailed);
                    assert(logs_view(logs@) =~= seq![ApiLogView::RequestBuildFailed]);
                    (ApiCallAction::Finish(Err(e)), logs)
                },
                _ => {
                    assert(logs_view(logs@) =~= Seq::<ApiLogView>::empty());
                    (ApiCallAction::Idle, logs)
                },
            },
            ApiCallStage::AwaitingResponse => match event {
                ApiCallEvent::Responded(status, body) => {
                    self.stage = ApiCallStage::Done;
                    if !is_success(status) {
                        let ghost b = body@;
                        logs.push(ApiLog::NonSuccessStatus(status, body));
                        if status == 410 {
                            logs.push(ApiLog::FunctionTimeout);
                            assert(logs_view(logs@) =~= seq![ApiLogView::NonSuccessStatus(status, b), ApiLogView::FunctionTimeout]);
                        } else {
                            assert(logs_view(logs@) =~= seq![ApiLogView::NonSuccessStatus(status, b)]);
                        }
                    } else {
                        assert(logs_view(logs@) =~= Seq::<ApiLogView>::empty());
                    }
                    (ApiCallAction::Finish(Ok(())), logs)
                },
                ApiCallEvent::TransportFailed(e) => {
                    self.stage = ApiCallStage::Done;
                    logs.push(ApiLog::SendFailed);
                    logs.push(ApiLog::RequestFailed);
                    assert(logs_view(logs@) =~= seq![ApiLogView::SendFailed, ApiLogView::RequestFailed]);
                    (ApiCallAction::Finish(Err(e)), logs)
                },
                _ => {
                    assert(logs_view(logs@) =~= Seq::<ApiLogView>::empty());
                    (ApiCallAction::Idle, logs)
                },
            },
            ApiCallStage::Done => {
                assert(logs_view(logs@) =~= Seq::<ApiLogView>::empty());
                (ApiCallAction::Idle, logs)
            },
        }
    }
}

/// Law: once the request is sent, every status the API answers with completes
/// the call successfully; a status outside `200..=299` is logged with the body
/// of the answer, and a `410` is also logged as a function timeout. A failed
/// delivery fails the call with the transport's own error.
pub proof fn lemma_status_never_fails_call<E>(status: u16, body: String, e: E)
    ensures
        spec_api_step(ApiCallStage::AwaitingResponse, ApiCallEvent::<E>::Responded(status, body)).1 == ApiCallAction::<E>::Finish(Ok(())),
        spec_api_step(ApiCallStage::AwaitingResponse, ApiCallEvent::TransportFailed(e)).1 == ApiCallAction::Finish(Err::<(), E>(e)),
        !spec_is_success(status) ==> spec_api_step(ApiCallStage::AwaitingResponse, ApiCallEvent::<E>::Responded(status, body)).2.contains(ApiLogView::NonSuccessStatus(status, body@)),
        spec_is_success(status) ==> spec_api_step(ApiCallStage::AwaitingResponse, ApiCallEvent::<E>::Responded(status, body)).2.len() == 0,
        status == 410 ==> spec_api_step(ApiCallStage::AwaitingResponse, ApiCallEvent::<E>::Responded(status, body)).2.contains(ApiLogView::FunctionTimeout),
{
    let logs = spec_api_step(ApiCallStage::AwaitingResponse, ApiCallEvent::<E>::Responded(status, body)).2;
    if !spec_is_success(status) {
        assert(logs[0] == ApiLogView::NonSuccessStatus(status, body@));
        if status == 410 {
            assert(logs[1] == ApiLogView::FunctionTimeout);
        }
    }
}

/// Law: a call whose request cannot be built fails with the builder's own
/// error, without sending anything.
pub proof fn lemma_build_failure_sends_nothing<E>(e: E)
    ensures
        spec_api_step(ApiCallStage::BuildingRequest, ApiCallEvent::RequestBuildFailed(e)).1 == ApiCallAction::Finish(Err::<(), E>(e)),
        spec_api_step(ApiCallStage::BuildingRequest, ApiCallEvent::RequestBuildFailed(e)).0 == ApiCallStage::Done,
{
}

/// Law: every status from 200 to 299 (`202 Accepted` among them) is a success:
/// the call completes successfully and logs nothing. Every other status is
/// logged with the body of the answer.
pub proof fn lemma_2xx_logs_nothing<E>(status: u16, body: String)
    ensures
        200 <= status <= 299 ==> spec_is_success(status),
        200 <= status <= 299 ==> spec_api_step(ApiCallStage::AwaitingResponse, ApiCallEvent::<E>::Responded(status, body))
            == (ApiCallStage::Done, ApiCallAction::<E>::Finish(Ok(())), Seq::<ApiLogView>::empty()),
        !(200 <= status <= 299) ==> spec_api_step(ApiCallStage::AwaitingResponse, ApiCallEvent::<E>::Responded(status, body)).2[0]
            == ApiLogView::NonSuccessStatus(status, body@),
{
}

} // verus!
