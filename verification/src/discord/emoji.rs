//! Custom emoji of a guild.
use vstd::prelude::*;
use crate::discord::snowflake::Snowflake;
use crate::discord::user::User;

verus! {

/// A custom emoji, and the user who made it where that is known.
pub struct Emoji {
    pub id: Snowflake,
    pub name: String,
    pub user: Option<User>,
}

} // verus!
