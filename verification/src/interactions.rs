//! Interaction requests as Discord sends them, and the responses to them.
use vstd::prelude::*;
use vstd::string::*;

verus! {

/// The body of a message that an interaction response carries.
pub struct InteractionResponseBody;

/// A response to an interaction, as Discord's interaction endpoint expects it.
pub enum InteractionResponse {
    Pong,
    ChannelMessage { deferred: bool, body: InteractionResponseBody },
    UpdateMessage { deferred: bool, body: InteractionResponseBody },
}

/// The callback type code that Discord assigns to each kind of response.
pub open spec fn spec_type_code(r: InteractionResponse) -> u8 {
    match r {
        InteractionResponse::Pong => 1,
        InteractionResponse::ChannelMessage { deferred, .. } => if deferred { 5 } else { 4 },
        InteractionResponse::UpdateMessage { deferred, .. } => if deferred { 7 } else { 6 },
    }
}

/// The JSON text of a response: an object with the type code under "type" and the
/// payload under "data" (`false` for a pong, the empty body `null` otherwise).
pub open spec fn spec_response_json(r: InteractionResponse) -> Seq<char> {
    "{\"type\":"@ + seq![digit_char(spec_type_code(r) as int)] + ",\"data\":"@
        + (if r is Pong { "false"@ } else { "null"@ }) + "}"@
}

/// The character of a decimal digit.
pub open spec fn digit_char(d: int) -> char {
    ('0' as int + d) as char
}

/// Whether a response defers its message.
pub open spec fn is_deferred(r: InteractionResponse) -> bool {
    match r {
        InteractionResponse::Pong => false,
        InteractionResponse::ChannelMessage { deferred, .. } => deferred,
        InteractionResponse::UpdateMessage { deferred, .. } => deferred,
    }
}

/// Law: the type code tells the kind of a response and whether it is deferred, so
/// that no two different kinds of response reach Discord as the same.
pub proof fn lemma_type_code_determines_kind(a: InteractionResponse, b: InteractionResponse)
    requires
        spec_type_code(a) == spec_type_code(b),
    ensures
        a is Pong <==> b is Pong,
        a is ChannelMessage <==> b is ChannelMessage,
        a is UpdateMessage <==> b is UpdateMessage,
        is_deferred(a) == is_deferred(b),
{
}

/// Law: the callback codes of Discord's interaction responses: 1 for a pong, 4 and 5
/// for a channel message sent now or deferred, 6 and 7 for a message update sent now
/// or deferred; and the JSON text carries that code in decimal under "type", with
/// `false` as data for a pong and `null` otherwise.
pub proof fn lemma_response_codes(r: InteractionResponse)
    ensures
        spec_type_code(r) == match r {
            InteractionResponse::Pong => 1u8,
            InteractionResponse::ChannelMessage { deferred, .. } => if deferred { 5u8 } else { 4u8 },
            InteractionResponse::UpdateMessage { deferred, .. } => if deferred { 7u8 } else { 6u8 },
        },
        spec_response_json(r) == "{\"type\":"@ + seq![('0' as int + spec_type_code(r)) as char] + ",\"data\":"@
            + (if r is Pong { "false"@ } else { "null"@ }) + "}"@,
{
}

impl InteractionResponse {
    /// The callback type code of this response.
    pub fn type_code(&self) -> (code: u8)
        ensures
            code == spec_type_code(*self),
    {
        match self {
            InteractionResponse::Pong => 1,
            InteractionResponse::ChannelMessage { deferred, .. } => if *deferred { 5 } else { 4 },
            InteractionResponse::UpdateMessage { deferred, .. } => if *deferred { 7 } else { 6 },
        }
    }

    /// Serialises the response to the JSON text Discord expects.
    pub fn to_json(&self) -> (json: String)
        ensures
            json@ == spec_response_json(*self),
    {
        let mut json = String::from_str("{\"type\":");
        let code = self.type_code();
        json.append(digit_str(code));
        json.append(",\"data\":");
        match self {
            InteractionResponse::Pong => json.append("false"),
            _ => json.append("null"),
        }
        json.append("}");
        json
    }
}

/// The one-character string of a decimal digit.
pub fn digit_str(d: u8) -> (s: &'static str)
    requires
        d < 10,
    ensures
        s@ == seq![digit_char(d as int)],
{
    proof {
        reveal_strlit("0");
        reveal_strlit("1");
        reveal_strlit("2");
        reveal_strlit("3");
        reveal_strlit("4");
        reveal_strlit("5");
        reveal_strlit("6");
        reveal_strlit("7");
        reveal_strlit("8");
        reveal_strlit("9");
    }
    match d {
        0 => "0",
        1 => "1",
        2 => "2",
        3 => "3",
        4 => "4",
        5 => "5",
        6 => "6",
        7 => "7",
        8 => "8",
        _ => "9",
    }
}

/// The kinds of interaction that Discord sends to the endpoint.
#[derive(Clone, Copy, PartialEq, Eq, Structural, Debug)]
pub enum InteractionRequestType {
    Ping,
    ApplicationCommand,
    MessageComponent,
    ApplicationCommandAutocomplete,
    ModalSubmit,
}

/// The kind of interaction that a type code stands for in Discord's payloads.
pub open spec fn spec_request_type(code: u64) -> Option<InteractionRequestType> {
    if code == 1 {
        Some(InteractionRequestType::Ping)
    } else if code == 2 {
        Some(InteractionRequestType::ApplicationCommand)
    } else if code == 3 {
        Some(InteractionRequestType::MessageComponent)
    } else if code == 4 {
        Some(InteractionRequestType::ApplicationCommandAutocomplete)
    } else if code == 5 {
        Some(InteractionRequestType::ModalSubmit)
    } else {
        None
    }
}

impl InteractionRequestType {
    /// The kind of interaction of a payload's type code, `None` for a code that
    /// names none.
    pub fn from_code(code: u64) -> (t: Option<InteractionRequestType>)
        ensures
            t == spec_request_type(code),
    {
        if code == 1 {
            Some(InteractionRequestType::Ping)
        } else if code == 2 {
            Some(InteractionRequestType::ApplicationCommand)
        } else if code == 3 {
            Some(InteractionRequestType::MessageComponent)
        } else if code == 4 {
            Some(InteractionRequestType::ApplicationCommandAutocomplete)
        } else if code == 5 {
            Some(InteractionRequestType::ModalSubmit)
        } else {
            None
        }
    }
}

/// An interaction as Discord sends it: its kind, and the JSON text of the command
/// data it carries, where it carries any.
pub struct InteractionRequest {
    pub t: InteractionRequestType,
    pub data: Option<String>,
}

/// The value of an interaction request.
pub struct InteractionRequestView {
    pub t: InteractionRequestType,
    pub data: Option<Seq<char>>,
}

impl View for InteractionRequest {
    type V = InteractionRequestView;

    open spec fn view(&self) -> InteractionRequestView {
        InteractionRequestView {
            t: self.t,
            data: match self.data {
                Some(d) => Some(d@),
                None => None,
            },
        }
    }
}

} // verus!
