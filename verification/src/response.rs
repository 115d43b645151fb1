//! The message that tells a client of a success: a JSON object with the one
//! string `message`.

use crate::json::{json_literal, literal_of};
use vstd::prelude::*;
use vstd::string::StringExecFns;

verus! {

/// The terminal payload of a request that succeeded.
#[derive(Clone, Debug, PartialEq, Eq)]
pub struct ClientResponse {
    pub message: String,
}

impl View for ClientResponse {
    type V = Seq<char>;

    open spec fn view(&self) -> Seq<char> {
        self.message@
    }
}

/// The text on the wire, given the JSON string literal of the message.
pub open spec fn framed_response(literal: Seq<char>) -> Seq<char> {
    "{\"message\":"@ + literal + "}"@
}

/// The text on the wire for a response with the given message.
pub open spec fn encoded_response(message: Seq<char>) -> Seq<char> {
    framed_response(json_literal(message))
}

impl ClientResponse {
    /// Puts the JSON string literal of a message into the object that goes
    /// on the wire.
    pub fn frame(literal: &str) -> (text: String)
        ensures
            text@ == framed_response(literal@),
    {
        let mut text = String::from_str("{\"message\":");
        text.append(literal);
        text.append("}");
        text
    }

    /// The text to send for this response.
    pub fn encode(&self) -> (text: String)
        ensures
            text@ == encoded_response(self@),
    {
        let literal = literal_of(self.message.as_str());
        ClientResponse::frame(literal.as_str())
    }
}

} // verus!
