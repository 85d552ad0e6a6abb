use vstd::prelude::*;

use crate::config::Config;
use crate::vote::VoteOffer;

verus! {

/// A JSON reply that only carries a message.
pub struct ReturnMsg {
    pub message: String,
}

impl ReturnMsg {
    pub fn with(message: &str) -> (msg: Self)
        ensures
            msg.message@ == message@,
    {
        Self { message: message.to_string() }
    }
}

/// What a route answers with; the server turns it into an HTTP response.
pub enum ReplyBody {
    /// `{"message": ...}` as JSON.
    Message(ReturnMsg),
    /// Plain text.
    Text(String),
    /// The videos offered for a vote, as JSON.
    VoteOffer(VoteOffer),
    /// A freshly issued admin session token, as JSON.
    Token(String),
    /// The server parameters, as JSON.
    Config(Config),
    /// No body.
    Empty,
}

/// A status code and a body.
pub struct Reply {
    pub status: u16,
    pub body: ReplyBody,
}

/// Builds a reply that carries only a JSON message.
pub trait MessageJson: Sized {
    fn message_json(with: &str) -> Self;
}

impl MessageJson for Reply {
    fn message_json(message: &str) -> (reply: Reply)
        ensures
            reply.is_message(200, message@),
    {
        Reply { status: 200, body: ReplyBody::Message(ReturnMsg::with(message)) }
    }
}

impl Reply {
    /// This reply has the given status and carries the given JSON message.
    pub open spec fn is_message(self, status: u16, text: Seq<char>) -> bool {
        &&& self.status == status
        &&& self.body matches ReplyBody::Message(msg)
        &&& msg.message@ == text
    }

    /// This reply has the given status and carries the given plain text.
    pub open spec fn is_text(self, status: u16, text: Seq<char>) -> bool {
        &&& self.status == status
        &&& self.body matches ReplyBody::Text(t)
        &&& t@ == text
    }

    pub fn with_status_code(self, status: u16) -> (reply: Reply)
        ensures
            reply.status == status,
            reply.body == self.body,
    {
        Reply { status, body: self.body }
    }

    pub fn text(text: &str) -> (reply: Reply)
        ensures
            reply.is_text(200, text@),
    {
        Reply { status: 200, body: ReplyBody::Text(text.to_string()) }
    }

    /// This reply is a 200 with no body.
    pub open spec fn is_empty_ok(self) -> bool {
        self.status == 200 && self.body is Empty
    }

    pub fn empty_ok() -> (reply: Reply)
        ensures
            reply.is_empty_ok(),
    {
        Reply { status: 200, body: ReplyBody::Empty }
    }

    pub fn empty_404() -> (reply: Reply)
        ensures
            reply.status == 404,
            reply.body is Empty,
    {
        Reply { status: 404, body: ReplyBody::Empty }
    }
}

} // verus!
