//! Replies of the worker, reduced to what the bridge acts on.
use vstd::prelude::*;

use crate::error::{Error, ErrorView};
use crate::gateway::{decoded, parse_payload, parsed_view};
use skyway_webrtc_gateway_caller::error::Error as ParseError;

verus! {

/// The identity of a peer: its id and the token that guards it.
#[derive(Debug, Clone, PartialEq, Eq)]
pub struct PeerInfo {
    pub peer_id: String,
    pub token: String,
}

pub struct PeerInfoView {
    pub peer_id: Seq<char>,
    pub token: Seq<char>,
}

impl View for PeerInfo {
    type V = PeerInfoView;

    open spec fn view(&self) -> PeerInfoView {
        PeerInfoView { peer_id: self.peer_id@, token: self.token@ }
    }
}

/// What a successful reply or an event says.
#[derive(Debug, Clone, PartialEq, Eq)]
pub enum Response {
    /// A peer was created.
    PeerCreated(PeerInfo),
    /// The data connection with this identifier was closed.
    DataConnectionClosed(String),
    /// The media connection with this identifier was closed.
    MediaConnectionClosed(String),
    /// Any other success; the bridge hands it on without acting on it.
    Other,
}

pub enum ResponseView {
    PeerCreated(PeerInfoView),
    DataConnectionClosed(Seq<char>),
    MediaConnectionClosed(Seq<char>),
    Other,
}

impl View for Response {
    type V = ResponseView;

    open spec fn view(&self) -> ResponseView {
        match self {
            Response::PeerCreated(info) => ResponseView::PeerCreated(info@),
            Response::DataConnectionClosed(id) => ResponseView::DataConnectionClosed(id@),
            Response::MediaConnectionClosed(id) => ResponseView::MediaConnectionClosed(id@),
            Response::Other => ResponseView::Other,
        }
    }
}

/// A decoded payload: the worker either did what was asked or says why not.
#[derive(Debug, Clone, PartialEq, Eq)]
pub enum ResponseResult {
    Success(Response),
    Error(String),
}

pub enum ResponseResultView {
    Success(ResponseView),
    Error(Seq<char>),
}

impl View for ResponseResult {
    type V = ResponseResultView;

    open spec fn view(&self) -> ResponseResultView {
        match self {
            ResponseResult::Success(response) => ResponseResultView::Success(response@),
            ResponseResult::Error(reason) => ResponseResultView::Error(reason@),
        }
    }
}

/// A payload of the worker that could be read: what it says, and the text
/// it was read from, which is what the host is handed in the end.
#[derive(Debug, Clone, PartialEq, Eq)]
pub struct Reply {
    pub response: ResponseResult,
    pub payload: String,
}

pub struct ReplyView {
    pub response: ResponseResultView,
    pub payload: Seq<char>,
}

impl View for Reply {
    type V = ReplyView;

    open spec fn view(&self) -> ReplyView {
        ReplyView { response: self.response@, payload: self.payload@ }
    }
}

/// How a round trip or a wait for an event ends: with what the worker said,
/// or with the bridge's own failure.
pub type Outcome = Result<Reply, Error>;

/// An [`Outcome`] by the views of what it holds.
pub open spec fn outcome_view(outcome: Outcome) -> Result<ReplyView, ErrorView> {
    match outcome {
        Ok(reply) => Ok(reply@),
        Err(error) => Err(error@),
    }
}

/// What the bridge returns for a payload, given what the parser made of it:
/// the parsed value next to the payload, or the parser's error as a decode
/// error.
pub open spec fn accepted(
    parsed: Result<ResponseResultView, ParseError>,
    payload: Seq<char>,
) -> Result<ReplyView, ErrorView> {
    match parsed {
        Ok(response) => Ok(ReplyView { response, payload }),
        Err(error) => Err(ErrorView::DecodeError(error)),
    }
}

/// What the bridge returns for a payload.
pub open spec fn decode_spec(payload: Seq<char>) -> Result<ReplyView, ErrorView> {
    accepted(decoded(payload), payload)
}

impl Reply {
    /// Turns what the parser made of a payload into the bridge's outcome.
    /// A value that parsed is returned whether it reports success or
    /// failure: a failure the worker reports is an answer, not an error.
    pub fn accept(parsed: Result<ResponseResult, ParseError>, payload: String) -> (outcome:
        Outcome)
        ensures
            outcome_view(outcome) == accepted(parsed_view(parsed), payload@),
            parsed matches Ok(response) ==> outcome == Ok::<Reply, Error>(
                Reply { response, payload },
            ),
    {
        match parsed {
            Ok(response) => Ok(Reply { response, payload }),
            Err(error) => Err(Error::DecodeError(error)),
        }
    }

    /// Decodes a payload of the worker.
    pub fn decode(payload: String) -> (outcome: Outcome)
        ensures
            outcome_view(outcome) == decode_spec(payload@),
    {
        let parsed = parse_payload(payload.as_str());
        Reply::accept(parsed, payload)
    }
}

} // verus!
