use slashcloud::dispatch::{accepts, begin, step, Action, Event, Reply, Stage};
use slashcloud::interactions::{InteractionRequest, InteractionRequestType, InteractionResponse, InteractionResponseBody};
use slashcloud::signature::{KeyFailure, VerifyFailure};

fn error_of(a: &Action) -> Option<(String, u16)> {
    match a {
        Action::Respond(Reply::Error { message, status }) => Some((message.clone(), *status)),
        _ => None,
    }
}

fn run(events: Vec<Event>) -> (Stage, Vec<Action>) {
    let (mut stage, first) = begin();
    let mut actions = vec![first];
    for e in events {
        assert!(accepts(stage, &e));
        let (s, a) = step(stage, e);
        stage = s;
        actions.push(a);
    }
    (stage, actions)
}

fn request(t: InteractionRequestType, data: Option<&str>) -> InteractionRequest {
    InteractionRequest { t, data: data.map(|d| d.to_string()) }
}

#[test]
fn starts_by_fetching_the_key() {
    let (stage, action) = begin();
    assert_eq!(stage, Stage::AwaitingKey);
    assert!(matches!(action, Action::FetchKey));
}

#[test]
fn ping_is_answered_with_pong() {
    let (stage, actions) = run(vec![
        Event::Key(Ok(())),
        Event::Signature(Ok(())),
        Event::Payload(Some(request(InteractionRequestType::Ping, Some("{}")))),
    ]);
    assert_eq!(stage, Stage::Finished);
    assert!(matches!(actions[1], Action::VerifySignature));
    assert!(matches!(actions[2], Action::ParsePayload));
    assert!(matches!(actions[3], Action::Respond(Reply::Json(InteractionResponse::Pong))));
}

#[test]
fn command_runs_handler_and_replies_with_its_answer() {
    let (stage, actions) = run(vec![
        Event::Key(Ok(())),
        Event::Signature(Ok(())),
        Event::Payload(Some(request(InteractionRequestType::ApplicationCommand, Some("{\"name\":\"ping\"}")))),
        Event::Args(true),
        Event::Handled(InteractionResponse::ChannelMessage { deferred: true, body: InteractionResponseBody }),
    ]);
    assert_eq!(stage, Stage::Finished);
    match &actions[3] {
        Action::DecodeArgs(d) => assert_eq!(d, "{\"name\":\"ping\"}"),
        _ => panic!("expected DecodeArgs"),
    }
    assert!(matches!(actions[4], Action::RunHandler));
    match &actions[5] {
        Action::Respond(Reply::Json(r)) => assert_eq!(r.type_code(), 5),
        _ => panic!("expected a JSON reply"),
    }
}

#[test]
fn missing_key_is_answered_500() {
    let (stage, actions) = run(vec![Event::Key(Err(KeyFailure::MissingSecret))]);
    assert_eq!(stage, Stage::Finished);
    assert_eq!(error_of(&actions[1]), Some(("Could not find DISCORD_PUBKEY".to_string(), 500)));
}

#[test]
fn bad_signature_is_answered_401() {
    for (f, msg) in [
        (VerifyFailure::SignatureMismatch, "Signature mismatch"),
        (VerifyFailure::MissingSignature, "Missing signature header"),
        (VerifyFailure::MissingTimestamp, "Missing timestamp header"),
        (VerifyFailure::MalformedSignature, "Failed to parse sig"),
        (VerifyFailure::VerificationError, "Error verifying"),
    ] {
        let (stage, actions) = run(vec![Event::Key(Ok(())), Event::Signature(Err(f))]);
        assert_eq!(stage, Stage::Finished);
        assert_eq!(error_of(&actions[2]), Some((msg.to_string(), 401)));
        // nothing more is accepted
        assert!(!accepts(stage, &Event::Payload(None)));
        assert!(!accepts(stage, &Event::Args(true)));
    }
}

#[test]
fn malformed_payload_is_answered_400() {
    let (_, actions) = run(vec![Event::Key(Ok(())), Event::Signature(Ok(())), Event::Payload(None)]);
    assert_eq!(error_of(&actions[3]), Some(("Malformed payload".to_string(), 400)));
}

#[test]
fn command_without_data_is_answered_400() {
    let (_, actions) = run(vec![
        Event::Key(Ok(())),
        Event::Signature(Ok(())),
        Event::Payload(Some(request(InteractionRequestType::ApplicationCommand, None))),
    ]);
    assert_eq!(error_of(&actions[3]), Some(("Missing args".to_string(), 400)));
}

#[test]
fn undecodable_args_are_answered_400() {
    let (_, actions) = run(vec![
        Event::Key(Ok(())),
        Event::Signature(Ok(())),
        Event::Payload(Some(request(InteractionRequestType::ApplicationCommand, Some("[]")))),
        Event::Args(false),
    ]);
    assert_eq!(error_of(&actions[4]), Some(("Could not deserialize args".to_string(), 400)));
}

#[test]
fn other_interactions_are_answered_404() {
    for t in [
        InteractionRequestType::MessageComponent,
        InteractionRequestType::ApplicationCommandAutocomplete,
        InteractionRequestType::ModalSubmit,
    ] {
        let (_, actions) = run(vec![
            Event::Key(Ok(())),
            Event::Signature(Ok(())),
            Event::Payload(Some(request(t, Some("{}")))),
        ]);
        assert_eq!(error_of(&actions[3]), Some(("Request type not recognized".to_string(), 404)));
    }
}

#[test]
fn events_out_of_turn_are_not_accepted() {
    assert!(!accepts(Stage::AwaitingKey, &Event::Signature(Ok(()))));
    assert!(!accepts(Stage::AwaitingSignature, &Event::Key(Ok(()))));
    assert!(!accepts(Stage::AwaitingPayload, &Event::Args(true)));
    assert!(!accepts(Stage::AwaitingArgs, &Event::Handled(InteractionResponse::Pong)));
    assert!(!accepts(Stage::AwaitingHandler, &Event::Payload(None)));
    assert!(accepts(Stage::AwaitingHandler, &Event::Handled(InteractionResponse::Pong)));
}
