use slashcloud::interactions::{InteractionRequestType, InteractionResponse, InteractionResponseBody};

#[test]
fn pong_serialises_with_type_one_and_false_data() {
    assert_eq!(InteractionResponse::Pong.to_json(), "{\"type\":1,\"data\":false}");
    assert_eq!(InteractionResponse::Pong.type_code(), 1);
}

#[test]
fn channel_message_codes() {
    let now = InteractionResponse::ChannelMessage { deferred: false, body: InteractionResponseBody };
    let later = InteractionResponse::ChannelMessage { deferred: true, body: InteractionResponseBody };
    assert_eq!(now.type_code(), 4);
    assert_eq!(later.type_code(), 5);
    assert_eq!(now.to_json(), "{\"type\":4,\"data\":null}");
    assert_eq!(later.to_json(), "{\"type\":5,\"data\":null}");
}

#[test]
fn update_message_codes() {
    let now = InteractionResponse::UpdateMessage { deferred: false, body: InteractionResponseBody };
    let later = InteractionResponse::UpdateMessage { deferred: true, body: InteractionResponseBody };
    assert_eq!(now.type_code(), 6);
    assert_eq!(later.type_code(), 7);
    assert_eq!(now.to_json(), "{\"type\":6,\"data\":null}");
    assert_eq!(later.to_json(), "{\"type\":7,\"data\":null}");
}

#[test]
fn all_type_codes_are_distinct() {
    let codes = [
        InteractionResponse::Pong.type_code(),
        InteractionResponse::ChannelMessage { deferred: false, body: InteractionResponseBody }.type_code(),
        InteractionResponse::ChannelMessage { deferred: true, body: InteractionResponseBody }.type_code(),
        InteractionResponse::UpdateMessage { deferred: false, body: InteractionResponseBody }.type_code(),
        InteractionResponse::UpdateMessage { deferred: true, body: InteractionResponseBody }.type_code(),
    ];
    for i in 0..codes.len() {
        for j in 0..codes.len() {
            if i != j {
                assert_ne!(codes[i], codes[j]);
            }
        }
    }
}

#[test]
fn request_type_codes() {
    assert_eq!(InteractionRequestType::from_code(1), Some(InteractionRequestType::Ping));
    assert_eq!(InteractionRequestType::from_code(2), Some(InteractionRequestType::ApplicationCommand));
    assert_eq!(InteractionRequestType::from_code(3), Some(InteractionRequestType::MessageComponent));
    assert_eq!(InteractionRequestType::from_code(4), Some(InteractionRequestType::ApplicationCommandAutocomplete));
    assert_eq!(InteractionRequestType::from_code(5), Some(InteractionRequestType::ModalSubmit));
    assert_eq!(InteractionRequestType::from_code(0), None);
    assert_eq!(InteractionRequestType::from_code(6), None);
}
