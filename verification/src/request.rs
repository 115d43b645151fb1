//! The request that a client submits: one text message that holds a JSON
//! object with the strings `action` and `data`.

use crate::json::{json_of_text, json_string_member, read_text, string_member};
use vstd::prelude::*;

verus! {

/// A request of a client. What the two fields mean is the client's affair:
/// every request is served by the same polling.
#[derive(Clone, Debug, PartialEq, Eq)]
pub struct ClientRequest {
    pub action: String,
    pub data: String,
}

/// A request as its two texts.
pub struct ClientRequestView {
    pub action: Seq<char>,
    pub data: Seq<char>,
}

impl View for ClientRequest {
    type V = ClientRequestView;

    open spec fn view(&self) -> ClientRequestView {
        ClientRequestView { action: self.action@, data: self.data@ }
    }
}

/// Why a text message is no request.
#[derive(Clone, Copy, Debug, PartialEq, Eq, Structural)]
pub enum RequestError {
    /// The text is no JSON document.
    NotJson,
    /// The document lacks `action` or `data`, or holds something other than
    /// a string there.
    NotARequest,
}

/// The request that two optional strings make: both must be there.
pub open spec fn request_of_fields(action: Option<Seq<char>>, data: Option<Seq<char>>) -> Result<
    ClientRequestView,
    RequestError,
> {
    match (action, data) {
        (Some(action), Some(data)) => Ok(ClientRequestView { action, data }),
        _ => Err(RequestError::NotARequest),
    }
}

/// The request that a text message holds, or the reason why it holds none.
pub open spec fn request_of_text(text: Seq<char>) -> Result<ClientRequestView, RequestError> {
    match json_of_text(text) {
        Some(document) => request_of_fields(
            json_string_member(document, "action"@),
            json_string_member(document, "data"@),
        ),
        None => Err(RequestError::NotJson),
    }
}

/// Whether an outcome of parsing is the one that the model gives.
pub open spec fn parsed_as(
    parsed: Result<ClientRequest, RequestError>,
    model: Result<ClientRequestView, RequestError>,
) -> bool {
    match model {
        Ok(request) => parsed matches Ok(found) && found@ == request,
        Err(error) => parsed == Err::<ClientRequest, RequestError>(error),
    }
}

impl ClientRequest {
    /// Makes a request of the strings found under `action` and `data`.
    pub fn from_fields(action: Option<&str>, data: Option<&str>) -> (made: Result<
        ClientRequest,
        RequestError,
    >)
        ensures
            parsed_as(
                made,
                request_of_fields(
                    match action {
                        Some(text) => Some(text@),
                        None => None,
                    },
                    match data {
                        Some(text) => Some(text@),
                        None => None,
                    },
                ),
            ),
    {
        match (action, data) {
            (Some(action), Some(data)) => Ok(
                ClientRequest { action: action.to_owned(), data: data.to_owned() },
            ),
            _ => Err(RequestError::NotARequest),
        }
    }

    /// Reads a request from a text message.
    pub fn parse(text: &str) -> (parsed: Result<ClientRequest, RequestError>)
        ensures
            parsed_as(parsed, request_of_text(text@)),
    {
        match read_text(text) {
            Ok(document) => ClientRequest::from_fields(
                string_member(&document, "action"),
                string_member(&document, "data"),
            ),
            Err(_) => Err(RequestError::NotJson),
        }
    }
}

} // verus!
