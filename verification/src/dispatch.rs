//! The interaction endpoint as a state machine. The endpoint fetches the
//! application's public key, checks the signature of the request, reads its payload,
//! decodes the command's arguments, runs the command's handler and answers. Each of
//! these is outside work; the machine takes what came of each step as an event and
//! says what to do next, down to the reply.
use vstd::prelude::*;
use vstd::string::*;
use crate::interactions::{InteractionRequest, InteractionRequestType, InteractionRequestView, InteractionResponse};
use crate::signature::{KeyFailure, VerifyFailure, spec_key_message, spec_verify_message};

verus! {

/// Where the endpoint stands in answering one request.
#[derive(Clone, Copy, PartialEq, Eq, Structural, Debug)]
pub enum Stage {
    AwaitingKey,
    AwaitingSignature,
    AwaitingPayload,
    AwaitingArgs,
    AwaitingHandler,
    Finished,
}

/// What came of the step that the endpoint asked for.
pub enum Event {
    /// The public key was fetched, or why not.
    Key(Result<(), KeyFailure>),
    /// The signature was checked, and the verdict.
    Signature(Result<(), VerifyFailure>),
    /// The payload, where it could be read as an interaction.
    Payload(Option<InteractionRequest>),
    /// Whether the command's arguments could be decoded from the command data.
    Args(bool),
    /// What the command's handler answered.
    Handled(InteractionResponse),
}

/// The answer to a request.
pub enum Reply {
    /// A JSON response with status 200.
    Json(InteractionResponse),
    /// An error response with a message and a status code.
    Error { message: String, status: u16 },
}

/// What the endpoint asks to be done next.
pub enum Action {
    FetchKey,
    VerifySignature,
    ParsePayload,
    /// Decode the command's arguments from this JSON text.
    DecodeArgs(String),
    RunHandler,
    Respond(Reply),
}

/// The value of an event.
pub enum EventView {
    Key(Result<(), KeyFailure>),
    Signature(Result<(), VerifyFailure>),
    Payload(Option<InteractionRequestView>),
    Args(bool),
    Handled(InteractionResponse),
}

/// The value of a reply.
pub enum ReplyView {
    Json(InteractionResponse),
    Error(Seq<char>, u16),
}

/// The value of an action.
pub enum ActionView {
    FetchKey,
    VerifySignature,
    ParsePayload,
    DecodeArgs(Seq<char>),
    RunHandler,
    Respond(ReplyView),
}

impl View for Event {
    type V = EventView;

    open spec fn view(&self) -> EventView {
        match self {
            Event::Key(r) => EventView::Key(*r),
            Event::Signature(r) => EventView::Signature(*r),
            Event::Payload(p) => EventView::Payload(match p {
                Some(req) => Some(req@),
                None => None,
            }),
            Event::Args(ok) => EventView::Args(*ok),
            Event::Handled(resp) => EventView::Handled(*resp),
        }
    }
}

impl View for Reply {
    type V = ReplyView;

    open spec fn view(&self) -> ReplyView {
        match self {
            Reply::Json(resp) => ReplyView::Json(*resp),
            Reply::Error { message, status } => ReplyView::Error(message@, *status),
        }
    }
}

impl View for Action {
    type V = ActionView;

    open spec fn view(&self) -> ActionView {
        match self {
            Action::FetchKey => ActionView::FetchKey,
            Action::VerifySignature => ActionView::VerifySignature,
            Action::ParsePayload => ActionView::ParsePayload,
            Action::DecodeArgs(d) => ActionView::DecodeArgs(d@),
            Action::RunHandler => ActionView::RunHandler,
            Action::Respond(r) => ActionView::Respond(r@),
        }
    }
}

/// Whether the endpoint, at `stage`, waits for an event of this kind: the outcome of
/// the step it asked for last. A finished endpoint waits for nothing.
pub open spec fn spec_accepts(stage: Stage, e: EventView) -> bool {
    match stage {
        Stage::AwaitingKey => e is Key,
        Stage::AwaitingSignature => e is Signature,
        Stage::AwaitingPayload => e is Payload,
        Stage::AwaitingArgs => e is Args,
        Stage::AwaitingHandler => e is Handled,
        Stage::Finished => false,
    }
}

/// An error reply, finishing the request.
pub open spec fn fail(message: Seq<char>, status: u16) -> (Stage, ActionView) {
    (Stage::Finished, ActionView::Respond(ReplyView::Error(message, status)))
}

/// The next stage and action of the endpoint after an event it waits for.
/// A failure to fetch the key is answered 500, a failed signature check 401, an
/// unreadable payload, a command without data and undecodable arguments 400, and an
/// interaction of another kind than ping or command 404. A ping is answered with a
/// pong; a command, once its arguments decode, with what its handler answers.
pub open spec fn spec_next(stage: Stage, e: EventView) -> (Stage, ActionView) {
    match e {
        EventView::Key(Ok(())) => (Stage::AwaitingSignature, ActionView::VerifySignature),
        EventView::Key(Err(f)) => fail(spec_key_message(f), 500),
        EventView::Signature(Ok(())) => (Stage::AwaitingPayload, ActionView::ParsePayload),
        EventView::Signature(Err(f)) => fail(spec_verify_message(f), 401),
        EventView::Payload(None) => fail("Malformed payload"@, 400),
        EventView::Payload(Some(req)) => match req.t {
            InteractionRequestType::Ping => (Stage::Finished, ActionView::Respond(ReplyView::Json(InteractionResponse::Pong))),
            InteractionRequestType::ApplicationCommand => match req.data {
                Some(d) => (Stage::AwaitingArgs, ActionView::DecodeArgs(d)),
                None => fail("Missing args"@, 400),
            },
            _ => fail("Request type not recognized"@, 404),
        },
        EventView::Args(true) => (Stage::AwaitingHandler, ActionView::RunHandler),
        EventView::Args(false) => fail("Could not deserialize args"@, 400),
        EventView::Handled(resp) => (Stage::Finished, ActionView::Respond(ReplyView::Json(resp))),
    }
}

/// Whether the endpoint, at `stage`, waits for this event.
pub fn accepts(stage: Stage, event: &Event) -> (b: bool)
    ensures
        b == spec_accepts(stage, event@),
{
    match stage {
        Stage::AwaitingKey => matches!(event, Event::Key(_)),
        Stage::AwaitingSignature => matches!(event, Event::Signature(_)),
        Stage::AwaitingPayload => matches!(event, Event::Payload(_)),
        Stage::AwaitingArgs => matches!(event, Event::Args(_)),
        Stage::AwaitingHandler => matches!(event, Event::Handled(_)),
        Stage::Finished => false,
    }
}

/// Where the endpoint starts for a new request, and its first action.
pub fn begin() -> (r: (Stage, Action))
    ensures
        r.0 == Stage::AwaitingKey,
        r.1@ == ActionView::FetchKey,
{
    (Stage::AwaitingKey, Action::FetchKey)
}

/// An error reply with the given message and status.
fn error_reply(message: &str, status: u16) -> (r: (Stage, Action))
    ensures
        r.0 == Stage::Finished,
        r.1@ == ActionView::Respond(ReplyView::Error(message@, status)),
{
    (Stage::Finished, Action::Respond(Reply::Error { message: String::from_str(message), status }))
}

/// Takes the outcome of the last step and gives the next stage and action.
pub fn step(stage: Stage, event: Event) -> (r: (Stage, Action))
    requires
        spec_accepts(stage, event@),
    ensures
        (r.0, r.1@) == spec_next(stage, event@),
{
    match event {
        Event::Key(Ok(())) => (Stage::AwaitingSignature, Action::VerifySignature),
        Event::Key(Err(f)) => error_reply(f.message(), 500),
        Event::Signature(Ok(())) => (Stage::AwaitingPayload, Action::ParsePayload),
        Event::Signature(Err(f)) => error_reply(f.message(), 401),
        Event::Payload(None) => error_reply("Malformed payload", 400),
        Event::Payload(Some(req)) => match req.t {
            InteractionRequestType::Ping => (Stage::Finished, Action::Respond(Reply::Json(InteractionResponse::Pong))),
            InteractionRequestType::ApplicationCommand => match req.data {
                Some(d) => (Stage::AwaitingArgs, Action::DecodeArgs(d)),
                None => error_reply("Missing args", 400),
            },
            _ => error_reply("Request type not recognized", 404),
        },
        Event::Args(true) => (Stage::AwaitingHandler, Action::RunHandler),
        Event::Args(false) => error_reply("Could not deserialize args", 400),
        Event::Handled(resp) => (Stage::Finished, Action::Respond(Reply::Json(resp))),
    }
}

/// The stage and actions that follow a sequence of events from `stage`, where the
/// endpoint waits for each of them in turn; `None` where it waits for another.
pub open spec fn run_from(stage: Stage, events: Seq<EventView>) -> Option<(Stage, Seq<ActionView>)>
    decreases events.len(),
{
    if events.len() == 0 {
        Some((stage, Seq::empty()))
    } else if !spec_accepts(stage, events[0]) {
        None
    } else {
        let (next_stage, action) = spec_next(stage, events[0]);
        match run_from(next_stage, events.drop_first()) {
            Some((last, actions)) => Some((last, seq![action] + actions)),
            None => None,
        }
    }
}

/// The stage and the actions after the first that follow a sequence of events from
/// the start of a request.
pub open spec fn run(events: Seq<EventView>) -> Option<(Stage, Seq<ActionView>)> {
    run_from(Stage::AwaitingKey, events)
}

/// How far a stage is along the way to the reply.
pub open spec fn rank(stage: Stage) -> nat {
    match stage {
        Stage::AwaitingKey => 0,
        Stage::AwaitingSignature => 1,
        Stage::AwaitingPayload => 2,
        Stage::AwaitingArgs => 3,
        Stage::AwaitingHandler => 4,
        Stage::Finished => 5,
    }
}

/// Each event moves the endpoint forward, and it is finished exactly when it replies.
proof fn lemma_step_progress(stage: Stage, e: EventView)
    requires
        spec_accepts(stage, e),
    ensures
        rank(spec_next(stage, e).0) > rank(stage),
        spec_next(stage, e).0 == Stage::Finished <==> spec_next(stage, e).1 is Respond,
{
}

/// What a run from `stage` looks like: as many actions as events, no more events
/// than the stages left, and a reply as the last action exactly when it finished,
/// never before.
proof fn lemma_run_shape(stage: Stage, events: Seq<EventView>)
    requires
        run_from(stage, events) is Some,
    ensures
        ({
            let (last, actions) = run_from(stage, events).unwrap();
            &&& actions.len() == events.len()
            &&& events.len() + rank(stage) <= rank(last)
            &&& rank(last) <= 5
            &&& (last == Stage::Finished <==> (if events.len() == 0 { stage == Stage::Finished } else { actions.last() is Respond }))
            &&& forall|j: int| 0 <= j < actions.len() - 1 ==> !(#[trigger] actions[j] is Respond)
        }),
    decreases events.len(),
{
    if events.len() > 0 {
        lemma_step_progress(stage, events[0]);
        let (next_stage, action) = spec_next(stage, events[0]);
        lemma_run_shape(next_stage, events.drop_first());
        let (last, rest) = run_from(next_stage, events.drop_first()).unwrap();
        let actions = seq![action] + rest;
        assert forall|j: int| 0 <= j < actions.len() - 1 implies !(#[trigger] actions[j] is Respond) by {
            if j > 0 {
                assert(actions[j] == rest[j - 1]);
            } else if rest.len() > 0 {
                assert(next_stage != Stage::Finished);
            }
        }
    }
}

/// Law: every request is answered once. A run from the start takes at most five
/// events, gives one action per event, and its last action is the one reply exactly
/// when the request is finished; no action before it is a reply.
pub proof fn lemma_one_reply_per_request(events: Seq<EventView>)
    requires
        run(events) is Some,
    ensures
        ({
            let (last, actions) = run(events).unwrap();
            &&& events.len() <= 5
            &&& actions.len() == events.len()
            &&& (last == Stage::Finished <==> (events.len() > 0 && actions.last() is Respond))
            &&& forall|j: int| 0 <= j < actions.len() - 1 ==> !(#[trigger] actions[j] is Respond)
        }),
{
    lemma_run_shape(Stage::AwaitingKey, events);
}

/// The event that carries a request on from the stage of the given rank: a fetched
/// key, a passed signature, a command payload with data, decodable arguments.
pub open spec fn carries_on(r: nat, e: EventView) -> bool {
    if r == 0 {
        e matches EventView::Key(Ok(_))
    } else if r == 1 {
        e matches EventView::Signature(Ok(_))
    } else if r == 2 {
        e matches EventView::Payload(Some(req))
            && req.t == InteractionRequestType::ApplicationCommand && req.data is Some
    } else if r == 3 {
        e == EventView::Args(true)
    } else {
        false
    }
}

/// An event that does not finish the request is the one that carries it on, and it
/// moves the endpoint one stage forward.
proof fn lemma_unfinished_step(stage: Stage, e: EventView)
    requires
        spec_accepts(stage, e),
        spec_next(stage, e).0 != Stage::Finished,
    ensures
        carries_on(rank(stage), e),
        rank(spec_next(stage, e).0) == rank(stage) + 1,
{
}

/// Where a run from `stage` asks to run the handler, it does so after the events that
/// carry the request on from `stage` to the handler.
proof fn lemma_handler_step(stage: Stage, events: Seq<EventView>, i: int)
    requires
        run_from(stage, events) is Some,
        0 <= i < run_from(stage, events).unwrap().1.len(),
        run_from(stage, events).unwrap().1[i] is RunHandler,
    ensures
        rank(stage) + i == 4 - 1,
        forall|k: int| 0 <= k <= i ==> carries_on((rank(stage) + k) as nat, #[trigger] events[k]),
    decreases events.len(),
{
    lemma_run_shape(stage, events);
    let (next_stage, action) = spec_next(stage, events[0]);
    let rest = events.drop_first();
    if i == 0 {
        assert(action is RunHandler);
        assert(stage == Stage::AwaitingArgs && events[0] == EventView::Args(true));
    } else {
        lemma_run_shape(next_stage, rest);
        assert(run_from(stage, events).unwrap().1[i] == run_from(next_stage, rest).unwrap().1[i - 1]);
        assert(rest.len() > 0);
        assert(next_stage != Stage::Finished);
        lemma_unfinished_step(stage, events[0]);
        lemma_handler_step(next_stage, rest, i - 1);
        assert forall|k: int| 0 <= k <= i implies carries_on((rank(stage) + k) as nat, #[trigger] events[k]) by {
            if k > 0 {
                assert(events[k] == rest[k - 1]);
                assert(carries_on((rank(next_stage) + (k - 1)) as nat, rest[k - 1]));
            }
        }
    }
}

/// Law: the command handler runs only for a verified command. Where a run asks to run
/// the handler, that is its fourth action, after the key was fetched, the signature
/// passed, the payload read as a command with data, and its arguments decoded.
pub proof fn lemma_handler_runs_only_after_verification(events: Seq<EventView>, i: int)
    requires
        run(events) is Some,
        0 <= i < run(events).unwrap().1.len(),
        run(events).unwrap().1[i] is RunHandler,
    ensures
        i == 3,
        events[0] matches EventView::Key(Ok(_)),
        events[1] matches EventView::Signature(Ok(_)),
        events[2] matches EventView::Payload(Some(req))
            && req.t == InteractionRequestType::ApplicationCommand && req.data is Some,
        events[3] == EventView::Args(true),
{
    lemma_handler_step(Stage::AwaitingKey, events, i);
    assert(carries_on(0, events[0]));
    assert(carries_on(1, events[1]));
    assert(carries_on(2, events[2]));
    assert(carries_on(3, events[3]));
}

/// Law: a request whose signature fails the check is answered 401 with the reason,
/// and nothing follows: the payload is never read and no handler runs.
pub proof fn lemma_refused_signature_answered_401(events: Seq<EventView>, f: VerifyFailure)
    requires
        events.len() >= 2,
        events[0] == EventView::Key(Ok(())),
        events[1] == EventView::Signature(Err(f)),
        run(events) is Some,
    ensures
        events.len() == 2,
        run(events) == Some((
            Stage::Finished,
            seq![ActionView::VerifySignature, ActionView::Respond(ReplyView::Error(spec_verify_message(f), 401))],
        )),
{
    reveal_with_fuel(run_from, 3);
    assert(events.drop_first()[0] == events[1]);
    if events.len() > 2 {
        assert(events.drop_first().drop_first()[0] == events[2]);
        assert(run_from(Stage::Finished, events.drop_first().drop_first()) is None);
    }
    assert(events.drop_first().drop_first().len() == 0);
    assert(run(events).unwrap().1 =~= seq![ActionView::VerifySignature, ActionView::Respond(ReplyView::Error(spec_verify_message(f), 401))]);
}

/// Law: where the public key cannot be had, the request is answered 500 with the
/// reason, before its signature is looked at.
pub proof fn lemma_missing_key_answered_500(events: Seq<EventView>, f: KeyFailure)
    requires
        events.len() >= 1,
        events[0] == EventView::Key(Err(f)),
        run(events) is Some,
    ensures
        events.len() == 1,
        run(events) == Some((Stage::Finished, seq![ActionView::Respond(ReplyView::Error(spec_key_message(f), 500))])),
{
    reveal_with_fuel(run_from, 2);
    if events.len() > 1 {
        assert(events.drop_first()[0] == events[1]);
        assert(run_from(Stage::Finished, events.drop_first()) is None);
    }
    assert(events.drop_first().len() == 0);
    assert(run(events).unwrap().1 =~= seq![ActionView::Respond(ReplyView::Error(spec_key_message(f), 500))]);
}

/// Law: a verified ping is answered with a pong, whatever else its payload holds.
pub proof fn lemma_ping_answered_with_pong(req: InteractionRequestView)
    requires
        req.t == InteractionRequestType::Ping,
    ensures
        run(seq![EventView::Key(Ok(())), EventView::Signature(Ok(())), EventView::Payload(Some(req))]) == Some((
            Stage::Finished,
            seq![ActionView::VerifySignature, ActionView::ParsePayload, ActionView::Respond(ReplyView::Json(InteractionResponse::Pong))],
        )),
{
    let events = seq![EventView::Key(Ok(())), EventView::Signature(Ok(())), EventView::Payload(Some(req))];
    reveal_with_fuel(run_from, 4);
    assert(events.drop_first() =~= seq![EventView::Signature(Ok(())), EventView::Payload(Some(req))]);
    assert(events.drop_first().drop_first() =~= seq![EventView::Payload(Some(req))]);
    assert(events.drop_first().drop_first().drop_first() =~= Seq::<EventView>::empty());
    assert(run(events).unwrap().1 =~= seq![ActionView::VerifySignature, ActionView::ParsePayload, ActionView::Respond(ReplyView::Json(InteractionResponse::Pong))]);
}

/// The last action of a run is what the endpoint does with the last event, from the
/// stage that waited for it, and the run ends in the stage that step leads to.
proof fn lemma_run_last_step(stage: Stage, events: Seq<EventView>) -> (before: Stage)
    requires
        run_from(stage, events) is Some,
        events.len() >= 1,
    ensures
        spec_accepts(before, events.last()),
        run_from(stage, events).unwrap().0 == spec_next(before, events.last()).0,
        run_from(stage, events).unwrap().1.last() == spec_next(before, events.last()).1,
    decreases events.len(),
{
    let (next_stage, action) = spec_next(stage, events[0]);
    let rest = events.drop_first();
    if events.len() == 1 {
        assert(rest.len() == 0);
        assert(run_from(stage, events).unwrap().1 =~= seq![action]);
        stage
    } else {
        let b = lemma_run_last_step(next_stage, rest);
        assert(rest.last() == events.last());
        let (last, acts) = run_from(next_stage, rest).unwrap();
        assert((seq![action] + acts).last() == acts.last());
        b
    }
}

/// Law: the reply to a command is its handler's answer, unchanged. Whenever the
/// endpoint takes the handler's answer, it finishes and replies with exactly that
/// answer as JSON; in particular, a run that ends with the handler's answer ends with
/// that reply.
pub proof fn lemma_command_reply_is_handler_answer(events: Seq<EventView>, resp: InteractionResponse)
    requires
        run(events) is Some,
        events.len() >= 1,
        events.last() == EventView::Handled(resp),
    ensures
        run(events).unwrap().0 == Stage::Finished,
        run(events).unwrap().1.last() == ActionView::Respond(ReplyView::Json(resp)),
        forall|stage: Stage| #[trigger] spec_accepts(stage, EventView::Handled(resp)) ==>
            spec_next(stage, EventView::Handled(resp)) == (Stage::Finished, ActionView::Respond(ReplyView::Json(resp))),
{
    let _ = lemma_run_last_step(Stage::AwaitingKey, events);
}

/// Law: what a verified payload is answered: an unreadable payload 400 "Malformed
/// payload", a ping with a pong, a command with data by decoding exactly that data,
/// a command without data 400 "Missing args", any other interaction 404 "Request type
/// not recognized"; and arguments that do not decode 400 "Could not deserialize args",
/// while decodable ones run the handler.
pub proof fn lemma_payload_answers(p: Option<InteractionRequestView>, decoded: bool)
    ensures
        spec_next(Stage::AwaitingPayload, EventView::Payload(p)) == match p {
            None => (Stage::Finished, ActionView::Respond(ReplyView::Error("Malformed payload"@, 400))),
            Some(req) => if req.t == InteractionRequestType::Ping {
                (Stage::Finished, ActionView::Respond(ReplyView::Json(InteractionResponse::Pong)))
            } else if req.t == InteractionRequestType::ApplicationCommand {
                match req.data {
                    Some(d) => (Stage::AwaitingArgs, ActionView::DecodeArgs(d)),
                    None => (Stage::Finished, ActionView::Respond(ReplyView::Error("Missing args"@, 400))),
                }
            } else {
                (Stage::Finished, ActionView::Respond(ReplyView::Error("Request type not recognized"@, 404)))
            },
        },
        spec_next(Stage::AwaitingArgs, EventView::Args(decoded)) == if decoded {
            (Stage::AwaitingHandler, ActionView::RunHandler)
        } else {
            (Stage::Finished, ActionView::Respond(ReplyView::Error("Could not deserialize args"@, 400)))
        },
{
}

} // verus!
