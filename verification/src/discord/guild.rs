//! Guilds, and the requests that read, change and delete them.
use vstd::prelude::*;
use vstd::string::*;
use crate::discord::emoji::Emoji;
use crate::decimal::{chars_value, is_digit_char, lemma_decimal_text_value};
use crate::discord::request::{Method, RequestSpec, RequestSpecView, Requestable, method_name};
use crate::discord::snowflake::{Snowflake, spec_snowflake_text};

verus! {

/// A guild (a server), as far as the library reads and writes it.
pub struct Guild {
    pub id: Snowflake,
    pub name: String,
    pub icon: Option<String>,
    pub splash: Option<String>,
    pub discovery_splash: Option<String>,
    pub emojis: Vec<Emoji>,
    pub features: Vec<String>,
    pub approximate_member_count: u64,
    pub approximate_presence_count: u64,
    pub description: String,
}

/// The requests on guilds.
pub enum GuildRequest {
    /// Read a guild, with or without its approximate member counts.
    GetGuild { guild: Snowflake, with_counts: bool },
    /// Change a guild to the given one.
    ModifyGuild { guild: Guild },
    /// Delete a guild.
    DeleteGuild { guild: Guild },
}

/// The text of a boolean in a query string.
pub open spec fn bool_text(b: bool) -> Seq<char> {
    if b { "true"@ } else { "false"@ }
}

impl Requestable for GuildRequest {
    /// The bucket of a guild request: its method and the guild's path.
    open spec fn spec_bucket(&self) -> Seq<char> {
        match self {
            GuildRequest::GetGuild { guild, .. } => "GET /guilds/"@ + spec_snowflake_text(*guild),
            GuildRequest::ModifyGuild { guild } => "PATCH /guilds/"@ + spec_snowflake_text(guild.id),
            GuildRequest::DeleteGuild { guild } => "DELETE /guilds/"@ + spec_snowflake_text(guild.id),
        }
    }

    /// A read asks for the counts in its query; a change sends the guild as its body.
    open spec fn spec_request(&self) -> RequestSpecView {
        match self {
            GuildRequest::GetGuild { guild, with_counts } => RequestSpecView {
                method: Method::Get,
                path: "/guilds/"@ + spec_snowflake_text(*guild) + "?with_counts="@ + bool_text(*with_counts),
                with_body: false,
            },
            GuildRequest::ModifyGuild { guild } => RequestSpecView {
                method: Method::Patch,
                path: "/guilds/"@ + spec_snowflake_text(guild.id),
                with_body: true,
            },
            GuildRequest::DeleteGuild { guild } => RequestSpecView {
                method: Method::Delete,
                path: "/guilds/"@ + spec_snowflake_text(guild.id),
                with_body: false,
            },
        }
    }

    fn ratelimit_bucket(&self) -> (bucket: String) {
        match self {
            GuildRequest::GetGuild { guild, .. } => {
                let mut s = String::from_str("GET /guilds/");
                guild.write_to(&mut s);
                s
            },
            GuildRequest::ModifyGuild { guild } => {
                let mut s = String::from_str("PATCH /guilds/");
                guild.id.write_to(&mut s);
                s
            },
            GuildRequest::DeleteGuild { guild } => {
                let mut s = String::from_str("DELETE /guilds/");
                guild.id.write_to(&mut s);
                s
            },
        }
    }

    fn build_request(&self) -> (r: RequestSpec) {
        match self {
            GuildRequest::GetGuild { guild, with_counts } => {
                let mut path = String::from_str("/guilds/");
                guild.write_to(&mut path);
                path.append("?with_counts=");
                if *with_counts {
                    path.append("true");
                } else {
                    path.append("false");
                }
                RequestSpec { method: Method::Get, path, with_body: false }
            },
            GuildRequest::ModifyGuild { guild } => {
                let mut path = String::from_str("/guilds/");
                guild.id.write_to(&mut path);
                RequestSpec { method: Method::Patch, path, with_body: true }
            },
            GuildRequest::DeleteGuild { guild } => {
                let mut path = String::from_str("/guilds/");
                guild.id.write_to(&mut path);
                RequestSpec { method: Method::Delete, path, with_body: false }
            },
        }
    }
}

/// The guild that a guild request is about.
pub open spec fn target_guild(r: GuildRequest) -> Snowflake {
    match r {
        GuildRequest::GetGuild { guild, .. } => guild,
        GuildRequest::ModifyGuild { guild } => guild.id,
        GuildRequest::DeleteGuild { guild } => guild.id,
    }
}

/// Law: a guild request goes to the guild it is about, named by its whole id. Its
/// path starts with "/guilds/" and a text of decimal digits whose value is the
/// guild's id; a read adds the counts query with the asked boolean, a change sends
/// the guild; and its rate-limit bucket is its method's name, a space and that same
/// guild path, so all requests on one guild share the path of that guild.
pub proof fn lemma_guild_request_names_whole_guild(r: GuildRequest)
    ensures
        ({
            let id = target_guild(r);
            let text = spec_snowflake_text(id);
            let p = "/guilds/"@ + text;
            let req = r.spec_request();
            &&& text.len() >= 1
            &&& forall|i: int| 0 <= i < text.len() ==> is_digit_char(#[trigger] text[i])
            &&& chars_value(text) == id.0
            &&& req.path.len() >= p.len()
            &&& req.path.subrange(0, p.len() as int) == p
            &&& r.spec_bucket() == method_name(req.method) + " "@ + p
            &&& match r {
                GuildRequest::GetGuild { with_counts, .. } => req.method == Method::Get
                    && req.path == p + "?with_counts="@ + (if with_counts { "true"@ } else { "false"@ })
                    && !req.with_body,
                GuildRequest::ModifyGuild { .. } => req.method == Method::Patch && req.path == p && req.with_body,
                GuildRequest::DeleteGuild { .. } => req.method == Method::Delete && req.path == p && !req.with_body,
            }
        }),
{
    let id = target_guild(r);
    lemma_decimal_text_value(id.0 as nat);
    let text = spec_snowflake_text(id);
    let p = "/guilds/"@ + text;
    let req = r.spec_request();
    assert(req.path.subrange(0, p.len() as int) =~= p);
    match r {
        GuildRequest::GetGuild { .. } => {
            assert(r.spec_bucket() =~= method_name(req.method) + " "@ + p) by {
                reveal_strlit("GET /guilds/");
                reveal_strlit("GET");
                reveal_strlit(" ");
                reveal_strlit("/guilds/");
            }
        },
        GuildRequest::ModifyGuild { .. } => {
            assert(r.spec_bucket() =~= method_name(req.method) + " "@ + p) by {
                reveal_strlit("PATCH /guilds/");
                reveal_strlit("PATCH");
                reveal_strlit(" ");
                reveal_strlit("/guilds/");
            }
        },
        GuildRequest::DeleteGuild { .. } => {
            assert(r.spec_bucket() =~= method_name(req.method) + " "@ + p) by {
                reveal_strlit("DELETE /guilds/");
                reveal_strlit("DELETE");
                reveal_strlit(" ");
                reveal_strlit("/guilds/");
            }
        },
    }
}

} // verus!
