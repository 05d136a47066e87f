use slashcloud::discord::guild::{Guild, GuildRequest};
use slashcloud::discord::message::{AllowedMentions, Message, MessageRequest};
use slashcloud::discord::request::{classify_status, Method, Requestable, ResponseClass};
use slashcloud::discord::snowflake::Snowflake;

fn guild(id: u64) -> Guild {
    Guild {
        id: Snowflake(id),
        name: "g".to_string(),
        icon: None,
        splash: None,
        discovery_splash: None,
        emojis: vec![],
        features: vec![],
        approximate_member_count: 0,
        approximate_presence_count: 0,
        description: String::new(),
    }
}

fn message(id: u64, channel: u64) -> Message {
    Message {
        id: Snowflake(id),
        channel_id: Snowflake(channel),
        guild_id: Snowflake(0),
        tts: false,
        content: "hi".to_string(),
        allowed_mentions: AllowedMentions { parse: vec![], roles: vec![], users: vec![] },
    }
}

#[test]
fn snowflake_text() {
    assert_eq!(Snowflake(0).to_text(), "0");
    assert_eq!(Snowflake(80351110224678912).to_text(), "80351110224678912");
}

#[test]
fn guild_requests() {
    let get = GuildRequest::GetGuild { guild: Snowflake(42), with_counts: true };
    assert_eq!(get.ratelimit_bucket(), "GET /guilds/42");
    let r = get.build_request();
    assert_eq!(r.method, Method::Get);
    assert_eq!(r.path, "/guilds/42?with_counts=true");
    assert!(!r.with_body);

    let get = GuildRequest::GetGuild { guild: Snowflake(7), with_counts: false };
    assert_eq!(get.build_request().path, "/guilds/7?with_counts=false");

    let modify = GuildRequest::ModifyGuild { guild: guild(99) };
    assert_eq!(modify.ratelimit_bucket(), "PATCH /guilds/99");
    let r = modify.build_request();
    assert_eq!(r.method, Method::Patch);
    assert_eq!(r.path, "/guilds/99");
    assert!(r.with_body);

    let delete = GuildRequest::DeleteGuild { guild: guild(5) };
    assert_eq!(delete.ratelimit_bucket(), "DELETE /guilds/5");
    let r = delete.build_request();
    assert_eq!(r.method, Method::Delete);
    assert_eq!(r.path, "/guilds/5");
    assert!(!r.with_body);
}

#[test]
fn message_requests() {
    let list = MessageRequest::GetMessages(Snowflake(10));
    assert_eq!(list.ratelimit_bucket(), "GET /channels/10/messages");
    let r = list.build_request();
    assert_eq!((r.method, r.path.as_str(), r.with_body), (Method::Get, "/channels/10/messages", false));

    let create = MessageRequest::CreateMessage(message(3, 11));
    assert_eq!(create.ratelimit_bucket(), "POST /channels/11/messages");
    let r = create.build_request();
    assert_eq!((r.method, r.path.as_str(), r.with_body), (Method::Post, "/channels/11/messages", true));

    let update = MessageRequest::UpdateMessage(message(3, 12));
    assert_eq!(update.ratelimit_bucket(), "PATCH /channels/12/messages");
    let r = update.build_request();
    assert_eq!((r.method, r.path.as_str(), r.with_body), (Method::Patch, "/channels/12/messages", true));

    let delete = MessageRequest::DeleteMessage(message(4, 13));
    assert_eq!(delete.ratelimit_bucket(), "DELETE /channels/13/messages");
    let r = delete.build_request();
    assert_eq!((r.method, r.path.as_str(), r.with_body), (Method::Delete, "/channels/13/messages/4", false));
}

#[test]
fn status_classes() {
    assert_eq!(classify_status(200), ResponseClass::Success);
    assert_eq!(classify_status(204), ResponseClass::Success);
    assert_eq!(classify_status(299), ResponseClass::Success);
    assert_eq!(classify_status(300), ResponseClass::ServerError);
    assert_eq!(classify_status(199), ResponseClass::ServerError);
    assert_eq!(classify_status(400), ResponseClass::RequestError);
    assert_eq!(classify_status(429), ResponseClass::RequestError);
    assert_eq!(classify_status(499), ResponseClass::RequestError);
    assert_eq!(classify_status(500), ResponseClass::ServerError);
}
