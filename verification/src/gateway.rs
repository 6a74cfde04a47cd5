//! The one place where the gateway crate's parser is called.
use vstd::prelude::*;

use crate::response::{PeerInfo, Response, ResponseResult, ResponseResultView};
use skyway_webrtc_gateway_caller::error::Error as ParseError;
use skyway_webrtc_gateway_caller::prelude::data::DataConnectionEventEnum;
use skyway_webrtc_gateway_caller::prelude::media::MediaConnectionEventEnum;
use skyway_webrtc_gateway_caller::prelude::response_parser::{
    DataResponse, MediaResponse, PeerResponse, ResponseMessage, ResponseResult as Parsed,
};

verus! {

/// The error type of the gateway crate. A value of it is carried through and
/// never looked into.
#[verifier::external_type_specification]
#[verifier::external_body]
pub struct ExParseError(ParseError);

/// What the gateway crate's `ResponseResult::from_str` makes of a payload,
/// reduced to the cases the bridge tells apart. No more is known of it than
/// that it is the same for the same text.
pub uninterp spec fn decoded(payload: Seq<char>) -> Result<ResponseResultView, ParseError>;

/// What the parser returned, with a parsed value taken by its view.
pub open spec fn parsed_view(parsed: Result<ResponseResult, ParseError>) -> Result<
    ResponseResultView,
    ParseError,
> {
    match parsed {
        Ok(response) => Ok(response@),
        Err(error) => Err(error),
    }
}

/// Calls `ResponseResult::from_str` of the gateway crate on `payload` and
/// copies what it returns into the types of this crate.
///
/// Not proved, but taken from the parser's source: what it returns depends
/// on the text of the payload and on nothing else. The body hands the
/// parser's error on as it is. Of a value that parsed it copies the reason
/// of a failure the worker reports, the id and the token of a created peer,
/// and the identifier in a close event of a data or a media connection; any
/// other success becomes [`Response::Other`].
#[verifier::external_body]
pub(crate) fn parse_payload(payload: &str) -> (parsed: Result<ResponseResult, ParseError>)
    ensures
        parsed_view(parsed) == decoded(payload@),
{
    Ok(match Parsed::from_str(payload)? {
        Parsed::Error(reason) => ResponseResult::Error(reason),
        Parsed::Success(ResponseMessage::Peer(PeerResponse::Create(info))) => ResponseResult::Success(
            Response::PeerCreated(PeerInfo { peer_id: info.peer_id().0, token: info.token().as_str().to_string() })),
        Parsed::Success(ResponseMessage::Data(DataResponse::Event(DataConnectionEventEnum::CLOSE(closed)))) =>
            ResponseResult::Success(Response::DataConnectionClosed(closed.data_connection_id.as_str().to_string())),
        Parsed::Success(ResponseMessage::Media(MediaResponse::Event(MediaConnectionEventEnum::CLOSE(closed)))) =>
            ResponseResult::Success(Response::MediaConnectionClosed(closed.media_connection_id.as_str().to_string())),
        Parsed::Success(_) => ResponseResult::Success(Response::Other),
    })
}

} // verus!
