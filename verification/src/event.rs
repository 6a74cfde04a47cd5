//! What the bridge does with an event once the drain loop has returned it.
use vstd::prelude::*;

use crate::response::{Response, ResponseResult, ResponseResultView, ResponseView};
use crate::state::{
    found, removed, DataConnectionState, Endpoints, MediaConnectionState, TransferDescription,
};

verus! {

/// What the handling of an event took out of the cache.
#[derive(Debug, Clone, PartialEq, Eq)]
pub enum Released {
    /// The event closed no connection that the cache knew of.
    Nothing,
    /// A data connection was closed; these were its ends.
    Data { data_connection_id: String, endpoints: Endpoints },
    /// A media connection was closed; this was its transfer.
    Media { media_connection_id: String, transfer: TransferDescription },
}

/// The identifier of the data connection that an event closes, if it closes
/// one.
pub open spec fn closed_data_connection(event: ResponseResultView) -> Option<Seq<char>> {
    match event {
        ResponseResultView::Success(ResponseView::DataConnectionClosed(id)) => Some(id),
        _ => None,
    }
}

/// The identifier of the media connection that an event closes, if it
/// closes one.
pub open spec fn closed_media_connection(event: ResponseResultView) -> Option<Seq<char>> {
    match event {
        ResponseResultView::Success(ResponseView::MediaConnectionClosed(id)) => Some(id),
        _ => None,
    }
}

/// The data store after an event was handled.
pub open spec fn data_after(
    event: ResponseResultView,
    data: Map<Seq<char>, Endpoints>,
) -> Map<Seq<char>, Endpoints> {
    match closed_data_connection(event) {
        Some(id) => removed(data, id),
        None => data,
    }
}

/// The media store after an event was handled.
pub open spec fn media_after(
    event: ResponseResultView,
    media: Map<Seq<char>, TransferDescription>,
) -> Map<Seq<char>, TransferDescription> {
    match closed_media_connection(event) {
        Some(id) => removed(media, id),
        None => media,
    }
}

/// Whether `released` is what the handling of `event` takes out of stores
/// that held `data` and `media`.
pub open spec fn releases(
    event: ResponseResultView,
    data: Map<Seq<char>, Endpoints>,
    media: Map<Seq<char>, TransferDescription>,
    released: Released,
) -> bool {
    match released {
        Released::Nothing => (closed_data_connection(event) matches Some(id) ==> found(data, id)
            is None) && (closed_media_connection(event) matches Some(id) ==> found(media, id)
            is None),
        Released::Data { data_connection_id, endpoints } => closed_data_connection(event) == Some(
            data_connection_id@,
        ) && found(data, data_connection_id@) == Some(endpoints),
        Released::Media { media_connection_id, transfer } => closed_media_connection(event)
            == Some(media_connection_id@) && found(media, media_connection_id@) == Some(
            transfer,
        ),
    }
}

/// Handles an event. One that reports a connection as closed has that
/// connection's entry read and removed from its store, and the entry handed
/// back; any other event, a failure included, leaves both stores as they
/// are.
pub fn handle_event(
    event: &ResponseResult,
    data: &mut DataConnectionState,
    media: &mut MediaConnectionState,
) -> (released: Released)
    ensures
        final(data)@ == data_after(event@, old(data)@),
        final(media)@ == media_after(event@, old(media)@),
        releases(event@, old(data)@, old(media)@, released),
{
    match event {
        ResponseResult::Success(Response::DataConnectionClosed(id)) => {
            let entry = data.find(id.as_str());
            data.remove(id.as_str());
            match entry {
                Some(endpoints) => Released::Data { data_connection_id: id.clone(), endpoints },
                None => Released::Nothing,
            }
        },
        ResponseResult::Success(Response::MediaConnectionClosed(id)) => {
            let entry = media.find(id.as_str());
            media.remove(id.as_str());
            match entry {
                Some(transfer) => Released::Media { media_connection_id: id.clone(), transfer },
                None => Released::Nothing,
            }
        },
        _ => Released::Nothing,
    }
}

/// Once an event that closes a connection is handled, nothing is found
/// under that connection's identifier, whatever was there before.
pub proof fn lemma_closed_connection_is_forgotten(
    event: ResponseResultView,
    data: Map<Seq<char>, Endpoints>,
    media: Map<Seq<char>, TransferDescription>,
)
    ensures
        closed_data_connection(event) matches Some(id) ==> found(data_after(event, data), id)
            is None,
        closed_media_connection(event) matches Some(id) ==> found(media_after(event, media), id)
            is None,
{
}

/// The handling of an event touches no entry but that of the connection
/// which the event closes.
pub proof fn lemma_other_connections_are_kept(
    event: ResponseResultView,
    data: Map<Seq<char>, Endpoints>,
    media: Map<Seq<char>, TransferDescription>,
    other: Seq<char>,
)
    ensures
        closed_data_connection(event) != Some(other) ==> found(data_after(event, data), other)
            == found(data, other),
        closed_media_connection(event) != Some(other) ==> found(media_after(event, media), other)
            == found(media, other),
{
}

} // verus!
