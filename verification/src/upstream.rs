//! What one call to the upstream service gave, and how it is judged.
//!
//! The call itself is made elsewhere. Its raw reply comes in as an
//! [`UpstreamReply`]; [`classify`] turns it into the [`UpstreamResult`] on
//! which the polling loop decides.

use crate::json::{
    debug_of,
    json_debug,
    json_of_bytes,
    json_string_member,
    read_bytes,
    string_member,
};
use vstd::prelude::*;

verus! {

/// What the transport hands back from one call.
#[derive(Clone, Debug, PartialEq, Eq)]
pub enum UpstreamReply {
    /// The service answered; these are the bytes of the body.
    Body(Vec<u8>),
    /// The service could not be reached, or its answer could not be read.
    Failed(String),
}

/// A reply, with its bytes and texts as sequences.
pub enum UpstreamReplyView {
    Body(Seq<u8>),
    Failed(Seq<char>),
}

impl View for UpstreamReply {
    type V = UpstreamReplyView;

    open spec fn view(&self) -> UpstreamReplyView {
        match self {
            UpstreamReply::Body(bytes) => UpstreamReplyView::Body(bytes@),
            UpstreamReply::Failed(reason) => UpstreamReplyView::Failed(reason@),
        }
    }
}

/// The outcome of one poll.
#[derive(Clone, Debug, PartialEq, Eq)]
pub enum UpstreamResult {
    /// The body is a JSON document that flags success. Holds a description
    /// of the document.
    Success(String),
    /// The body flags no success. Holds a description of its document, or
    /// nothing where the body is no JSON document.
    NotYetSuccessful(Option<String>),
    /// The call failed. Holds the reason.
    TransportError(String),
}

/// The outcome of one poll, with its texts as sequences.
pub enum UpstreamResultView {
    Success(Seq<char>),
    NotYetSuccessful(Option<Seq<char>>),
    TransportError(Seq<char>),
}

impl View for UpstreamResult {
    type V = UpstreamResultView;

    open spec fn view(&self) -> UpstreamResultView {
        match self {
            UpstreamResult::Success(payload) => UpstreamResultView::Success(payload@),
            UpstreamResult::NotYetSuccessful(Some(payload)) => UpstreamResultView::NotYetSuccessful(
                Some(payload@),
            ),
            UpstreamResult::NotYetSuccessful(None) => UpstreamResultView::NotYetSuccessful(None),
            UpstreamResult::TransportError(reason) => UpstreamResultView::TransportError(reason@),
        }
    }
}

/// Whether the string found under `flag` reports success: it must be there
/// and be `success`, letter for letter.
pub open spec fn flag_is_success(flag: Option<Seq<char>>) -> bool {
    flag == Some("success"@)
}

/// The outcome for a document with the given `flag` string and description.
pub open spec fn result_of_flag(flag: Option<Seq<char>>, description: Seq<char>) -> UpstreamResultView {
    if flag_is_success(flag) {
        UpstreamResultView::Success(description)
    } else {
        UpstreamResultView::NotYetSuccessful(Some(description))
    }
}

/// The outcome for a body that is the given JSON document.
pub open spec fn result_of_document(document: serde_json::Value) -> UpstreamResultView {
    result_of_flag(json_string_member(document, "flag"@), json_debug(document))
}

/// The outcome for a raw reply. A failed call is a transport error with its
/// reason; a body that is no JSON document, or whose document does not flag
/// success, is not yet successful.
pub open spec fn classified(reply: UpstreamReplyView) -> UpstreamResultView {
    match reply {
        UpstreamReplyView::Failed(reason) => UpstreamResultView::TransportError(reason),
        UpstreamReplyView::Body(bytes) => match json_of_bytes(bytes) {
            Some(document) => result_of_document(document),
            None => UpstreamResultView::NotYetSuccessful(None),
        },
    }
}

impl UpstreamResult {
    /// Whether this outcome ends the polling with a success.
    pub fn is_success(&self) -> (yes: bool)
        ensures
            yes == (self@ is Success),
    {
        match self {
            UpstreamResult::Success(_) => true,
            _ => false,
        }
    }

    /// Judges a parsed body by the string under `flag`, if any: `success`
    /// and nothing else is a success. The description goes into the outcome.
    pub fn from_flag(flag: Option<&str>, description: String) -> (result: UpstreamResult)
        ensures
            result@ == result_of_flag(
                match flag {
                    Some(text) => Some(text@),
                    None => None,
                },
                description@,
            ),
    {
        let success = match flag {
            Some(text) => text.to_owned() == "success".to_owned(),
            None => false,
        };
        if success {
            UpstreamResult::Success(description)
        } else {
            UpstreamResult::NotYetSuccessful(Some(description))
        }
    }

    /// Judges a body that parsed to the given document.
    pub fn from_document(document: &serde_json::Value) -> (result: UpstreamResult)
        ensures
            result@ == result_of_document(*document),
    {
        UpstreamResult::from_flag(string_member(document, "flag"), debug_of(document))
    }
}

/// Judges the raw reply of one call.
pub fn classify(reply: UpstreamReply) -> (result: UpstreamResult)
    ensures
        result@ == classified(reply@),
{
    match reply {
        UpstreamReply::Failed(reason) => UpstreamResult::TransportError(reason),
        UpstreamReply::Body(bytes) => match read_bytes(bytes.as_slice()) {
            Ok(document) => UpstreamResult::from_document(&document),
            Err(_) => UpstreamResult::NotYetSuccessful(None),
        },
    }
}

} // verus!
