//! Discord users.
use vstd::prelude::*;
use crate::discord::snowflake::Snowflake;

verus! {

/// A Discord user.
pub struct User {
    pub id: Snowflake,
    pub username: String,
    pub discriminatior: String,
    pub avatar: Option<String>,
    pub bot: bool,
    pub system: bool,
    pub mfa_enabled: bool,
    pub banner: Option<String>,
    pub accent_color: Option<u32>,
    pub locale: String,
    pub flags: u32,
    pub premium_type: u32,
    pub public_flags: u32,
}

} // verus!
