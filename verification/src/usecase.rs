//! The dispatcher and the services behind it.
//!
//! Serving a request takes two decisions with one round trip between them.
//! The first looks at the request and either names the request to register
//! with the worker or rejects it on the spot. The second looks at how the
//! round trip ended and names what to return and which callback of the host
//! to call. The caller performs the round trip; it is asked for at most one.
use vstd::prelude::*;
use vstd::string::StringExecFns;

use crate::error::{Error, ErrorView};
use crate::request::{PeerCommand, Request, RequestDto, RequestDtoView, RequestView};
use crate::response::{
    outcome_view, Outcome, ReplyView, Response, ResponseResult, ResponseResultView, ResponseView,
};

verus! {

/// The message of the error that rejects a request no service recognizes.
pub open spec fn wrong_parameter_text(message: RequestDtoView) -> Seq<char> {
    "wrong parameter "@ + message.shown()
}

/// A call into the host that a served request gives rise to.
#[derive(Debug, Clone, PartialEq, Eq)]
pub enum Callback {
    /// A peer was created: the host learns its id and its token.
    CreatePeer { peer_id: String, token: String },
}

pub enum CallbackView {
    CreatePeer { peer_id: Seq<char>, token: Seq<char> },
}

impl View for Callback {
    type V = CallbackView;

    open spec fn view(&self) -> CallbackView {
        match self {
            Callback::CreatePeer { peer_id, token } => CallbackView::CreatePeer {
                peer_id: peer_id@,
                token: token@,
            },
        }
    }
}

/// An optional [`Callback`] by its view.
pub open spec fn callback_view(callback: Option<Callback>) -> Option<CallbackView> {
    match callback {
        Some(callback) => Some(callback@),
        None => None,
    }
}

/// The first decision by its views.
pub open spec fn step_view(step: Result<Request, Error>) -> Result<RequestView, ErrorView> {
    match step {
        Ok(request) => Ok(request@),
        Err(error) => Err(error@),
    }
}

/// The first decision of both services: a request of the peer family is
/// registered as it is, anything else is rejected with a message that shows
/// it.
pub open spec fn peer_only(message: RequestDtoView) -> Result<RequestView, ErrorView> {
    match message {
        RequestDtoView::Peer(inner) => Ok(RequestView::Peer(inner)),
        _ => Err(ErrorView::LocalError(wrong_parameter_text(message))),
    }
}

fn reject(message: &RequestDto) -> (error: Error)
    ensures
        error@ == ErrorView::LocalError(wrong_parameter_text(message@)),
{
    let mut text = String::from_str("wrong parameter ");
    let shown = message.render();
    text.append(shown.as_str());
    Error::LocalError(text)
}

fn accept_peer(message: RequestDto) -> (step: Result<Request, Error>)
    ensures
        step_view(step) == peer_only(message@),
{
    match message {
        RequestDto::Peer(inner) => Ok(Request::Peer(inner)),
        other => Err(reject(&other)),
    }
}

/// What a service hands back once the round trip is over.
#[derive(Debug)]
pub struct Completion {
    /// What the caller returns.
    pub result: Outcome,
    /// The callback of the host to call before returning, if any. Whether
    /// that call succeeds has no bearing on `result`.
    pub callback: Option<Callback>,
}

/// The service for requests that need nothing done besides the round trip.
#[derive(Debug, Clone, Copy, PartialEq, Eq, Structural)]
pub struct General {}

/// The service that creates a peer.
#[derive(Debug, Clone, Copy, PartialEq, Eq, Structural)]
pub struct Create {}

impl General {
    /// The first decision: `Ok` names the one request to register, `Err` is
    /// returned at once, with nothing sent.
    pub fn execute(&self, message: RequestDto) -> (step: Result<Request, Error>)
        ensures
            step_view(step) == peer_only(message@),
    {
        accept_peer(message)
    }

    /// The second decision: the round trip's outcome is the result, be it a
    /// success, a failure the worker reports, or an error of the bridge.
    pub fn complete(&self, outcome: Outcome) -> (done: Completion)
        ensures
            done.result == outcome,
            done.callback is None,
    {
        Completion { result: outcome, callback: None }
    }
}

impl Create {
    /// The callback that an outcome gives rise to: the peer callback for a
    /// created peer, none for anything else.
    pub open spec fn callback_spec(outcome: Result<ReplyView, ErrorView>) -> Option<
        CallbackView,
    > {
        match outcome {
            Ok(reply) => match reply.response {
                ResponseResultView::Success(ResponseView::PeerCreated(info)) => Some(
                    CallbackView::CreatePeer { peer_id: info.peer_id, token: info.token },
                ),
                _ => None,
            },
            Err(_) => None,
        }
    }

    /// The first decision: `Ok` names the one request to register, `Err` is
    /// returned at once, with nothing sent.
    pub fn execute(&self, message: RequestDto) -> (step: Result<Request, Error>)
        ensures
            step_view(step) == peer_only(message@),
    {
        accept_peer(message)
    }

    /// The second decision: the round trip's outcome is the result, and a
    /// created peer is announced to the host.
    pub fn complete(&self, outcome: Outcome) -> (done: Completion)
        ensures
            done.result == outcome,
            callback_view(done.callback) == Self::callback_spec(outcome_view(outcome)),
    {
        let callback = match &outcome {
            Ok(reply) => match &reply.response {
                ResponseResult::Success(Response::PeerCreated(info)) => Some(
                    Callback::CreatePeer {
                        peer_id: info.peer_id.clone(),
                        token: info.token.clone(),
                    },
                ),
                _ => None,
            },
            Err(_) => None,
        };
        Completion { result: outcome, callback }
    }
}

/// The services a request can be routed to.
#[derive(Debug, Clone, Copy, PartialEq, Eq, Structural)]
pub enum Service {
    General,
    Create,
}

/// The service that serves a request: [`Create`] for the creation of a
/// peer, [`General`] for the other peer commands, none for anything else.
pub open spec fn service_for(message: RequestDtoView) -> Option<Service> {
    match message {
        RequestDtoView::Peer(inner) => if inner.command == PeerCommand::Create {
            Some(Service::Create)
        } else {
            Some(Service::General)
        },
        _ => None,
    }
}

/// The first decision of the dispatcher.
#[derive(Debug)]
pub enum Dispatch {
    /// Perform one round trip with `request`, then hand its outcome and
    /// `service` to [`complete`].
    Register { service: Service, request: Request },
    /// Return this error. Nothing is sent.
    Reject(Error),
}

pub enum DispatchView {
    Register { service: Service, request: RequestView },
    Reject(ErrorView),
}

impl View for Dispatch {
    type V = DispatchView;

    open spec fn view(&self) -> DispatchView {
        match self {
            Dispatch::Register { service, request } => DispatchView::Register {
                service: *service,
                request: request@,
            },
            Dispatch::Reject(error) => DispatchView::Reject(error@),
        }
    }
}

/// The first decision of the dispatcher, by its views.
pub open spec fn execute_spec(message: RequestDtoView) -> DispatchView {
    match (service_for(message), message.request()) {
        (Some(service), Some(request)) => DispatchView::Register { service, request },
        _ => DispatchView::Reject(ErrorView::LocalError(wrong_parameter_text(message))),
    }
}

/// The callback that the dispatcher asks for once the round trip is over.
pub open spec fn complete_spec(
    service: Service,
    outcome: Result<ReplyView, ErrorView>,
) -> Option<CallbackView> {
    match service {
        Service::General => None,
        Service::Create => Create::callback_spec(outcome),
    }
}

/// Routes a request: to the service that recognizes its family and command,
/// which then asks for one round trip, or to a rejection that shows the
/// request.
pub fn execute(message: RequestDto) -> (dispatch: Dispatch)
    ensures
        dispatch@ == execute_spec(message@),
{
    match message {
        RequestDto::Peer(inner) => {
            let service = match inner.command {
                PeerCommand::Create => Service::Create,
                _ => Service::General,
            };
            let step = match service {
                Service::General => (General {}).execute(RequestDto::Peer(inner)),
                Service::Create => (Create {}).execute(RequestDto::Peer(inner)),
            };
            match step {
                Ok(request) => Dispatch::Register { service, request },
                Err(error) => Dispatch::Reject(error),
            }
        },
        other => Dispatch::Reject(reject(&other)),
    }
}

/// Hands the outcome of the round trip to the service that asked for it.
pub fn complete(service: Service, outcome: Outcome) -> (done: Completion)
    ensures
        done.result == outcome,
        callback_view(done.callback) == complete_spec(service, outcome_view(outcome)),
{
    match service {
        Service::General => (General {}).complete(outcome),
        Service::Create => (Create {}).complete(outcome),
    }
}

/// A request that some service recognizes is served by exactly one round
/// trip, made with that very request, and what the round trip yields is what
/// is returned.
pub proof fn lemma_recognized_request_makes_one_round_trip(message: RequestDtoView)
    requires
        service_for(message) is Some,
    ensures
        message.request() is Some,
        execute_spec(message) == (DispatchView::Register {
            service: service_for(message).unwrap(),
            request: message.request().unwrap(),
        }),
{
}

/// A request that no service recognizes is rejected with a local error whose
/// message shows the request; the decision holds no request to send.
pub proof fn lemma_unrecognized_request_is_rejected(message: RequestDtoView)
    requires
        service_for(message) is None,
    ensures
        execute_spec(message) == DispatchView::Reject(
            ErrorView::LocalError("wrong parameter "@ + message.shown()),
        ),
        !(execute_spec(message) is Register),
{
}

} // verus!
