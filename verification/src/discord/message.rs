//! Messages in channels, and the requests that list, send, change and delete them.
use vstd::prelude::*;
use vstd::string::*;
use crate::decimal::{chars_value, is_digit_char, lemma_decimal_text_value};
use crate::discord::request::{Method, RequestSpec, RequestSpecView, Requestable, method_name};
use crate::discord::snowflake::{Snowflake, spec_snowflake_text};

verus! {

/// Which mentions in a message may notify the mentioned.
pub struct AllowedMentions {
    pub parse: Vec<String>,
    pub roles: Vec<Snowflake>,
    pub users: Vec<Snowflake>,
}

/// A message in a channel.
pub struct Message {
    pub id: Snowflake,
    pub channel_id: Snowflake,
    pub guild_id: Snowflake,
    pub tts: bool,
    pub content: String,
    pub allowed_mentions: AllowedMentions,
}

/// The requests on messages.
pub enum MessageRequest {
    /// List the messages of a channel.
    GetMessages(Snowflake),
    /// Send a message to its channel.
    CreateMessage(Message),
    /// Change a message.
    UpdateMessage(Message),
    /// Delete a message.
    DeleteMessage(Message),
}

/// The path of the messages of a channel.
pub open spec fn messages_path(channel: Snowflake) -> Seq<char> {
    "/channels/"@ + spec_snowflake_text(channel) + "/messages"@
}

/// Writes the path of the messages of a channel, after `prefix`.
fn messages_text(prefix: &str, channel: Snowflake) -> (s: String)
    ensures
        s@ == prefix@ + messages_path(channel),
{
    let mut s = String::from_str(prefix);
    s.append("/channels/");
    channel.write_to(&mut s);
    s.append("/messages");
    s
}

impl Requestable for MessageRequest {
    /// The bucket of a message request: its method and the channel's messages path.
    open spec fn spec_bucket(&self) -> Seq<char> {
        match self {
            MessageRequest::GetMessages(channel) => "GET "@ + messages_path(*channel),
            MessageRequest::CreateMessage(msg) => "POST "@ + messages_path(msg.channel_id),
            MessageRequest::UpdateMessage(msg) => "PATCH "@ + messages_path(msg.channel_id),
            MessageRequest::DeleteMessage(msg) => "DELETE "@ + messages_path(msg.channel_id),
        }
    }

    /// Sending and changing send the message as the body; deleting names the message
    /// in the path.
    open spec fn spec_request(&self) -> RequestSpecView {
        match self {
            MessageRequest::GetMessages(channel) => RequestSpecView {
                method: Method::Get,
                path: messages_path(*channel),
                with_body: false,
            },
            MessageRequest::CreateMessage(msg) => RequestSpecView {
                method: Method::Post,
                path: messages_path(msg.channel_id),
                with_body: true,
            },
            MessageRequest::UpdateMessage(msg) => RequestSpecView {
                method: Method::Patch,
                path: messages_path(msg.channel_id),
                with_body: true,
            },
            MessageRequest::DeleteMessage(msg) => RequestSpecView {
                method: Method::Delete,
                path: messages_path(msg.channel_id) + "/"@ + spec_snowflake_text(msg.id),
                with_body: false,
            },
        }
    }

    fn ratelimit_bucket(&self) -> (bucket: String) {
        match self {
            MessageRequest::GetMessages(channel) => messages_text("GET ", *channel),
            MessageRequest::CreateMessage(msg) => messages_text("POST ", msg.channel_id),
            MessageRequest::UpdateMessage(msg) => messages_text("PATCH ", msg.channel_id),
            MessageRequest::DeleteMessage(msg) => messages_text("DELETE ", msg.channel_id),
        }
    }

    fn build_request(&self) -> (r: RequestSpec) {
        match self {
            MessageRequest::GetMessages(channel) => {
                let path = messages_text("", *channel);
                proof { reveal_strlit(""); }
                assert(path@ =~= messages_path(*channel));
                RequestSpec { method: Method::Get, path, with_body: false }
            },
            MessageRequest::CreateMessage(msg) => {
                let path = messages_text("", msg.channel_id);
                proof { reveal_strlit(""); }
                assert(path@ =~= messages_path(msg.channel_id));
                RequestSpec { method: Method::Post, path, with_body: true }
            },
            MessageRequest::UpdateMessage(msg) => {
                let path = messages_text("", msg.channel_id);
                proof { reveal_strlit(""); }
                assert(path@ =~= messages_path(msg.channel_id));
                RequestSpec { method: Method::Patch, path, with_body: true }
            },
            MessageRequest::DeleteMessage(msg) => {
                let mut path = messages_text("", msg.channel_id);
                proof { reveal_strlit(""); }
                assert(path@ =~= messages_path(msg.channel_id));
                path.append("/");
                msg.id.write_to(&mut path);
                RequestSpec { method: Method::Delete, path, with_body: false }
            },
        }
    }
}

/// The channel that a message request is about.
pub open spec fn target_channel(r: MessageRequest) -> Snowflake {
    match r {
        MessageRequest::GetMessages(channel) => channel,
        MessageRequest::CreateMessage(msg) => msg.channel_id,
        MessageRequest::UpdateMessage(msg) => msg.channel_id,
        MessageRequest::DeleteMessage(msg) => msg.channel_id,
    }
}

/// Law: a message request goes to the messages of its channel, named by the whole
/// channel id. Its path starts with "/channels/", a text of decimal digits whose value
/// is the channel's id, and "/messages"; a delete adds "/" and the digits of the
/// message's whole id; sending and changing send the message; and its rate-limit
/// bucket is its method's name, a space and that same channel path, so all requests
/// on one channel share the path of that channel.
pub proof fn lemma_message_request_names_whole_channel(r: MessageRequest)
    ensures
        ({
            let c = target_channel(r);
            let text = spec_snowflake_text(c);
            let p = "/channels/"@ + text + "/messages"@;
            let req = r.spec_request();
            &&& text.len() >= 1
            &&& forall|i: int| 0 <= i < text.len() ==> is_digit_char(#[trigger] text[i])
            &&& chars_value(text) == c.0
            &&& req.path.len() >= p.len()
            &&& req.path.subrange(0, p.len() as int) == p
            &&& r.spec_bucket() == method_name(req.method) + " "@ + p
            &&& match r {
                MessageRequest::GetMessages(_) => req.method == Method::Get && req.path == p && !req.with_body,
                MessageRequest::CreateMessage(_) => req.method == Method::Post && req.path == p && req.with_body,
                MessageRequest::UpdateMessage(_) => req.method == Method::Patch && req.path == p && req.with_body,
                MessageRequest::DeleteMessage(msg) => req.method == Method::Delete && !req.with_body
                    && req.path == p + "/"@ + spec_snowflake_text(msg.id)
                    && chars_value(spec_snowflake_text(msg.id)) == msg.id.0
                    && forall|i: int| 0 <= i < spec_snowflake_text(msg.id).len()
                        ==> is_digit_char(#[trigger] spec_snowflake_text(msg.id)[i]),
            }
        }),
{
    let c = target_channel(r);
    lemma_decimal_text_value(c.0 as nat);
    let text = spec_snowflake_text(c);
    let p = "/channels/"@ + text + "/messages"@;
    let req = r.spec_request();
    assert(req.path.subrange(0, p.len() as int) =~= p);
    reveal_strlit(" ");
    match r {
        MessageRequest::GetMessages(_) => {
            reveal_strlit("GET ");
            reveal_strlit("GET");
            assert(r.spec_bucket() =~= method_name(req.method) + " "@ + p);
        },
        MessageRequest::CreateMessage(_) => {
            reveal_strlit("POST ");
            reveal_strlit("POST");
            assert(r.spec_bucket() =~= method_name(req.method) + " "@ + p);
        },
        MessageRequest::UpdateMessage(_) => {
            reveal_strlit("PATCH ");
            reveal_strlit("PATCH");
            assert(r.spec_bucket() =~= method_name(req.method) + " "@ + p);
        },
        MessageRequest::DeleteMessage(msg) => {
            reveal_strlit("DELETE ");
            reveal_strlit("DELETE");
            lemma_decimal_text_value(msg.id.0 as nat);
            assert(r.spec_bucket() =~= method_name(req.method) + " "@ + p);
        },
    }
}

} // verus!
