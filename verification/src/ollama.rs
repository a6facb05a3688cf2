//! The messages exchanged with the Ollama backend, and the texts that a
//! request to it needs.

use vstd::prelude::*;
use vstd::string::StringExecFns;
use crate::text::{chars_of, slice_of, string_of};

verus! {

/// Who spoke a message.
#[derive(Clone, Copy, Debug, PartialEq, Eq)]
pub enum Role {
    System,
    User,
    Assistant,
}

/// The name under which the backend knows a role.
pub open spec fn role_name(role: Role) -> Seq<char> {
    match role {
        Role::System => "system"@,
        Role::User => "user"@,
        Role::Assistant => "assistant"@,
    }
}

impl Role {
    /// The name under which the backend knows this role.
    pub fn as_str(&self) -> (r: &'static str)
        ensures
            r@ == role_name(*self),
    {
        match self {
            Role::System => "system",
            Role::User => "user",
            Role::Assistant => "assistant",
        }
    }
}

/// One entry of a conversation.
pub struct Message {
    pub role: Role,
    pub content: String,
}

/// A message as mathematical text.
pub struct MessageText {
    pub role: Role,
    pub content: Seq<char>,
}

impl View for Message {
    type V = MessageText;

    open spec fn view(&self) -> MessageText {
        MessageText { role: self.role, content: self.content@ }
    }
}

/// A conversation as mathematical text.
pub open spec fn history_text(messages: Seq<Message>) -> Seq<MessageText> {
    messages.map_values(|m: Message| m@)
}

/// `s` without the slashes at its end.
pub open spec fn without_trailing_slashes(s: Seq<char>) -> Seq<char>
    decreases s.len(),
{
    if s.len() > 0 && s.last() == '/' {
        without_trailing_slashes(s.drop_last())
    } else {
        s
    }
}

/// The address of the backend's chat service under `base_url`.
pub open spec fn chat_url_text(base_url: Seq<char>) -> Seq<char> {
    without_trailing_slashes(base_url) + "/api/chat"@
}

/// The failure's message where the backend answered with a status that is
/// no success.
pub open spec fn http_error_text(status: Seq<char>, body: Seq<char>) -> Seq<char> {
    "Ollama HTTP error "@ + status + ": "@ + body
}

/// The address to post a chat request to.
pub fn chat_url(base_url: &str) -> (r: String)
    ensures
        r@ == chat_url_text(base_url@),
{
    let cs = chars_of(base_url);
    let mut n: usize = cs.len();
    assert(cs@.subrange(0, n as int) =~= cs@);
    while n > 0 && cs[n - 1] == '/'
        invariant
            n <= cs.len(),
            without_trailing_slashes(cs@) == without_trailing_slashes(cs@.subrange(0, n as int)),
        decreases n,
    {
        assert(cs@.subrange(0, n as int).drop_last() =~= cs@.subrange(0, n - 1));
        n -= 1;
    }
    let stem = slice_of(&cs, 0, n);
    let mut out = string_of(&stem);
    out.append("/api/chat");
    out
}

/// The conversation that puts one prompt to the model: a single message of
/// the user.
pub fn single_turn(prompt: &str) -> (r: Vec<Message>)
    ensures
        history_text(r@) == seq![MessageText { role: Role::User, content: prompt@ }],
{
    let mut messages: Vec<Message> = Vec::new();
    messages.push(Message { role: Role::User, content: String::from_str(prompt) });
    assert(history_text(messages@) =~= seq![MessageText { role: Role::User, content: prompt@ }]);
    messages
}

/// The message of the failure where the backend answered `status` with
/// `body`.
pub fn http_error(status: &str, body: &str) -> (r: String)
    ensures
        r@ == http_error_text(status@, body@),
{
    let mut out = String::from_str("Ollama HTTP error ");
    out.append(status);
    out.append(": ");
    out.append(body);
    out
}

} // verus!
